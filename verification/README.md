# evse_server

An OCPP 1.6 server for one charging point, with its logic verified by Verus.

* `src/` is the verified library: the battery and its state of charge (`bms`), charging sessions
  (`charging_session`), schedules, plans and charging profiles (`schedule`, `plan`, `profile`), the
  measures (`measurements`), the records of the store (`database`), the messages (`wire`, `calls`,
  `command`), the charging point itself (`evse`), the exchange with it (`ocpp`, `dispatcher`) and
  the command line's arguments (`args`). `laws` states what holds of the charging point whatever
  messages come in; the other modules state the laws of their own types.
* `app/` is the program around it: the command line, the web socket, the SQLite file and the logs.
* `tests/` runs the library, with real messages.

States of charge are counted in units of which 10^12 make a full battery, energies in Wh, and
durations in nanoseconds, so that all of them add up and compare exactly.
