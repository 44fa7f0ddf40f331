//! What the user asks the server for.
use vstd::prelude::*;
use vstd::std_specs::convert::{FromSpec, FromSpecImpl};

use crate::bms::{Bms, SoC};
use crate::plan;
use crate::text::{
    decimal, decimal_text, is_digit, law_decimal_is_read_back, number_in, parse_number, same_text,
    without_plus,
};
use crate::time::{TimeOfDay, parse_time_of_day, time_of_day_in};

verus! {

/// The charging plan to apply.
#[derive(Debug, Copy, Clone, PartialEq, Eq, Structural)]
pub enum ChargingPlan {
    /// Block charging (0 W permanent plan)
    Blocking,
    /// Off peak period Today
    OffPeakToday,
    /// Off peak period Tomorrow
    OffPeakTomorrow,
    /// Compute a start time so the battery reaches SoC cap
    /// as close as possible to stop time (needs to specify soc_cap & stop_time)
    ReachSocCapBefore,
    /// Start ASAP
    NoLimit,
}

/// The address of a server.
#[derive(Debug, PartialEq, Eq)]
pub struct ServerIp {
    pub ip_address: String,
}

impl Default for ServerIp {
    fn default() -> (r: Self)
        ensures
            r.ip_address@ == Seq::<char>::empty(),
    {
        ServerIp { ip_address: String::new() }
    }
}

impl Clone for ServerIp {
    fn clone(&self) -> (r: Self)
        ensures
            r == *self,
    {
        ServerIp { ip_address: self.ip_address.clone() }
    }
}

/// The four bytes of an IPv4 address.
#[derive(Debug, Clone, Copy, PartialEq, Eq, Structural)]
pub struct Ipv4Address(pub u8, pub u8, pub u8, pub u8);

/// Two texts with a dot in between.
pub open spec fn dotted(a: Seq<char>, b: Seq<char>) -> Seq<char> {
    a.push('.') + b
}

impl Ipv4Address {
    /// The address as it is written: its bytes in decimal digits, with dots in between.
    pub open spec fn text(self) -> Seq<char> {
        dotted(
            decimal(self.0 as nat),
            dotted(
                decimal(self.1 as nat),
                dotted(decimal(self.2 as nat), decimal(self.3 as nat)),
            ),
        )
    }

    pub fn to_string(&self) -> (r: String)
        ensures
            r@ == self.text(),
    {
        let a = decimal_text(self.0 as u64);
        let b = decimal_text(self.1 as u64);
        let c = decimal_text(self.2 as u64);
        let d = decimal_text(self.3 as u64);
        let r = a.concat(".").concat(b.as_str()).concat(".").concat(c.as_str()).concat(
            ".",
        ).concat(d.as_str());
        proof {
            reveal_strlit(".");
            assert("."@ =~= seq!['.']);
            assert(r@ =~= self.text());
        }
        r
    }
}

/// What was given as the address of a server is none.
#[derive(Debug, Clone, Copy, PartialEq, Eq, Structural)]
pub struct InvalidServerIp;

/// Where the first dot of a text is, from an index on, or the end of the text.
fn next_dot(text: &str, from: usize) -> (r: usize)
    requires
        from <= text@.len(),
    ensures
        from <= r <= text@.len(),
        forall|i: int| from <= i < r ==> text@[i] != '.',
        r < text@.len() ==> text@[r as int] == '.',
{
    let len = text.unicode_len();
    let mut i: usize = from;
    while i < len
        invariant
            from <= i <= len,
            len == text@.len(),
            forall|j: int| from <= j < i ==> text@[j] != '.',
        decreases len - i,
    {
        if text.get_char(i) == '.' {
            return i;
        }
        i = i + 1;
    }
    i
}

/// Reads a byte out of the part of a text between two indices.
fn byte_between(text: &str, from: usize, to: usize) -> (r: Option<u8>)
    requires
        from <= to <= text@.len(),
    ensures
        match r {
            Some(byte) => number_in(text@.subrange(from as int, to as int)) == Some(byte as u64),
            None => match number_in(text@.subrange(from as int, to as int)) {
                Some(n) => n > 255,
                None => true,
            },
        },
{
    match parse_number(text.substring_char(from, to)) {
        Some(n) => if n <= 255 {
            Some(n as u8)
        } else {
            None
        },
        None => None,
    }
}

proof fn lemma_decimal_is_number(n: u8)
    ensures
        number_in(decimal(n as nat)) == Some(n as u64),
        forall|i: int| 0 <= i < decimal(n as nat).len() ==> decimal(n as nat)[i] != '.',
{
    law_decimal_is_read_back(n as nat);
    assert(is_digit(decimal(n as nat)[0]));
    assert(without_plus(decimal(n as nat)) == decimal(n as nat));
    assert forall|i: int| 0 <= i < decimal(n as nat).len() implies decimal(n as nat)[i] != '.' by {
        assert(is_digit(decimal(n as nat)[i]));
    }
}

impl ServerIp {
    /// Reads the address, which has to be written in decimal digits without leading zeros.
    pub fn get_ip_address(&self) -> (r: Result<Ipv4Address, InvalidServerIp>)
        ensures
            match r {
                Ok(address) => self.ip_address@ == address.text(),
                Err(_) => forall|address: Ipv4Address|
                    self.ip_address@ != #[trigger] address.text(),
            },
    {
        let text = self.ip_address.as_str();
        let len = text.unicode_len();
        let first = next_dot(text, 0);
        let second = if first < len {
            next_dot(text, first + 1)
        } else {
            len
        };
        let third = if second < len {
            next_dot(text, second + 1)
        } else {
            len
        };
        proof {
            assert forall|address: Ipv4Address| text@ == #[trigger] address.text() implies {
                &&& third < len
                &&& number_in(text@.subrange(0, first as int)) == Some(address.0 as u64)
                &&& number_in(text@.subrange(first + 1, second as int)) == Some(address.1 as u64)
                &&& number_in(text@.subrange(second + 1, third as int)) == Some(address.2 as u64)
                &&& number_in(text@.subrange(third + 1, len as int)) == Some(address.3 as u64)
            } by {
                lemma_decimal_is_number(address.0);
                lemma_decimal_is_number(address.1);
                lemma_decimal_is_number(address.2);
                lemma_decimal_is_number(address.3);
                let a = decimal(address.0 as nat);
                let b = decimal(address.1 as nat);
                let c = decimal(address.2 as nat);
                let d = decimal(address.3 as nat);
                let cd = dotted(c, d);
                let bcd = dotted(b, cd);
                assert(text@ == dotted(a, bcd));
                assert(text@[a.len() as int] == '.');
                assert forall|i: int| 0 <= i < a.len() implies text@[i] == a[i] by {}
                assert(first == a.len());
                assert(text@.subrange(0, first as int) =~= a);
                assert forall|i: int| 0 <= i < bcd.len() implies text@[first + 1 + i] == bcd[i] by {}
                assert(text@[first + 1 + b.len()] == bcd[b.len() as int]);
                assert forall|i: int| 0 <= i < b.len() implies text@[first + 1 + i] == b[i] by {
                    assert(bcd[i] == b[i]);
                }
                assert(second == first + 1 + b.len()) by {
                    if second < first + 1 + b.len() {
                        assert(text@[second as int] == b[second - first - 1]);
                    }
                }
                assert(text@.subrange(first + 1, second as int) =~= b);
                assert forall|i: int| 0 <= i < cd.len() implies text@[second + 1 + i] == cd[i] by {
                    assert(bcd[b.len() + 1 + i] == cd[i]);
                    assert(text@[first + 1 + (b.len() + 1 + i)] == bcd[b.len() + 1 + i]);
                }
                assert(text@[second + 1 + c.len()] == cd[c.len() as int]);
                assert forall|i: int| 0 <= i < c.len() implies text@[second + 1 + i] == c[i] by {
                    assert(cd[i] == c[i]);
                }
                assert(third == second + 1 + c.len()) by {
                    if third < second + 1 + c.len() {
                        assert(text@[third as int] == c[third - second - 1]);
                    }
                }
                assert(text@.subrange(second + 1, third as int) =~= c);
                assert forall|i: int| 0 <= i < d.len() implies text@[third + 1 + i] == d[i] by {
                    assert(cd[c.len() + 1 + i] == d[i]);
                    assert(text@[second + 1 + (c.len() + 1 + i)] == cd[c.len() + 1 + i]);
                }
                assert(text@.subrange(third + 1, len as int) =~= d);
            }
        }
        if third >= len {
            return Err(InvalidServerIp);
        }
        let bytes = (
            byte_between(text, 0, first),
            byte_between(text, first + 1, second),
            byte_between(text, second + 1, third),
            byte_between(text, third + 1, len),
        );
        match bytes {
            (Some(a), Some(b), Some(c), Some(d)) => {
                let address = Ipv4Address(a, b, c, d);
                if same_text(text, address.to_string().as_str()) {
                    Ok(address)
                } else {
                    Err(InvalidServerIp)
                }
            },
            _ => Err(InvalidServerIp),
        }
    }
}

/// What the server is to do.
#[derive(Debug, PartialEq, Eq)]
pub enum Command {
    /// Run the server
    Run,
    /// Stop the active session
    StopSession,
    /// Reboot the EVSE once connected. This will
    /// replace any charging schedule with a permanent 0 W limit
    Reboot,
    /// Change the server IP, this will also reboot and
    /// replace any charging schedule with a permanent 0 W limit
    SetServerIp(ServerIp),
}

impl Clone for Command {
    fn clone(&self) -> (r: Self)
        ensures
            r == *self,
    {
        match self {
            Command::Run => Command::Run,
            Command::StopSession => Command::StopSession,
            Command::Reboot => Command::Reboot,
            Command::SetServerIp(ip) => Command::SetServerIp(ip.clone()),
        }
    }
}

impl Command {
    pub fn is_run(&self) -> (r: bool)
        ensures
            r == (*self is Run),
    {
        matches!(self, Command::Run)
    }

    pub fn is_stop_session(&self) -> (r: bool)
        ensures
            r == (*self is StopSession),
    {
        matches!(self, Command::StopSession)
    }

    pub fn is_reboot(&self) -> (r: bool)
        ensures
            r == (*self is Reboot),
    {
        matches!(self, Command::Reboot)
    }
}

/// The arguments of the server.
#[derive(Debug, PartialEq, Eq)]
pub struct Args {
    /// battery capacity (Wh)
    pub battery_capacity: u32,
    /// charging plan power limit (W)
    pub power_limit: u32,
    /// Constant power lost while charging (W)
    pub constant_power_loss: u16,
    /// initial State of Charge (%) at start of a session (upcoming or in progress)
    pub initial_soc: Option<u8>,
    /// State of Charge upper limit (%). Use 100 to discard previous SoC limit
    pub soc_cap: Option<u8>,
    /// which charging plan to apply (default: no changes to current plan)
    pub charging_plan: Option<ChargingPlan>,
    /// Charging plan end time - required for reach-soc-cap-before ('HH:MM')
    pub end_time: Option<String>,
    /// port of the OCPP server
    pub ocpp_port: u16,
    /// generate short logs: no timestamps, no modules. Suitable for a systemd unit
    pub short_logs: bool,
    pub command: Option<Command>,
}

/// The state of charge that a percentage makes.
pub open spec fn percent(value: u8) -> i64 {
    (value * 10_000_000_000) as i64
}

pub open spec fn percent_option(value: Option<u8>) -> Option<i64> {
    match value {
        Some(value) => Some(percent(value)),
        None => None,
    }
}

fn share_of_percent(value: Option<u8>) -> (r: Option<i64>)
    ensures
        r == percent_option(value),
{
    match value {
        Some(value) => Some(value as i64 * 10_000_000_000),
        None => None,
    }
}

/// A hundred percent make a full battery.
pub proof fn law_hundred_percent_is_full()
    ensures
        percent(100) == crate::bms::FULL_CHARGE,
{
}

impl<'a> From<&'a Args> for Bms {
    fn from(args: &'a Args) -> (r: Self) {
        Bms::builder(args.battery_capacity, args.constant_power_loss).initial_soc(
            SoC::new_absolute(share_of_percent(args.initial_soc)),
        ).soc_cap(share_of_percent(args.soc_cap)).build()
    }
}

impl<'a> FromSpecImpl<&'a Args> for Bms {
    open spec fn obeys_from_spec() -> bool {
        true
    }

    open spec fn from_spec(args: &'a Args) -> Self {
        Bms {
            capacity: args.battery_capacity,
            constant_power_loss: args.constant_power_loss,
            initial_energy: None,
            current_energy: None,
            initial_soc: SoC::spec_new(true, percent_option(args.initial_soc)),
            current_soc: SoC::spec_new(true, percent_option(args.initial_soc)),
            soc_cap: percent_option(args.soc_cap),
        }
    }
}

/// What is wrong with the plan to reach the limit on the state of charge, where anything is. The
/// end time is given as it was read.
pub open spec fn reach_problem(
    has_cap: bool,
    end_time: Option<Result<TimeOfDay, Seq<char>>>,
) -> Option<Seq<char>> {
    let no_cap = "'reach-soc-cap-before' requires soc-cap to be specified"@;
    let no_end = "'reach-soc-cap-before' requires end-time to be specified"@;
    let unreadable = "'reach-soc-cap-before' failed to parse end_time: "@;
    match end_time {
        Some(Ok(_)) => if has_cap {
            None
        } else {
            Some(no_cap)
        },
        Some(Err(reason)) => Some(
            if has_cap {
                unreadable + reason
            } else {
                no_cap.push('\n') + unreadable + reason
            },
        ),
        None => Some(
            if has_cap {
                no_end
            } else {
                no_cap.push('\n') + no_end
            },
        ),
    }
}

pub open spec fn end_time_view(end_time: Option<Result<TimeOfDay, String>>) -> Option<
    Result<TimeOfDay, Seq<char>>,
> {
    match end_time {
        Some(Ok(time)) => Some(Ok(time)),
        Some(Err(reason)) => Some(Err(reason@)),
        None => None,
    }
}

impl Args {
    /// The end time of the arguments, as it is read.
    pub open spec fn read_end_time(self) -> Option<Result<TimeOfDay, Seq<char>>> {
        match self.end_time {
            Some(text) => Some(time_of_day_in(text@)),
            None => None,
        }
    }

    /// The charging plan of the arguments, with the end time as it was read, or what is wrong with
    /// it.
    pub open spec fn plan(self, end_time: Option<Result<TimeOfDay, Seq<char>>>) -> Result<
        Option<plan::ChargingPlan>,
        Seq<char>,
    > {
        let power_limit = self.power_limit;
        match self.charging_plan {
            None => Ok(None),
            Some(ChargingPlan::Blocking) => Ok(Some(plan::ChargingPlan::Blocking)),
            Some(ChargingPlan::OffPeakToday) => Ok(
                Some(plan::ChargingPlan::OffPeakToday { power_limit }),
            ),
            Some(ChargingPlan::OffPeakTomorrow) => Ok(
                Some(plan::ChargingPlan::OffPeakTomorrow { power_limit }),
            ),
            Some(ChargingPlan::ReachSocCapBefore) => match reach_problem(
                self.soc_cap is Some,
                end_time,
            ) {
                None => Ok(
                    Some(
                        plan::ChargingPlan::ReachSocCapBefore {
                            end_time: end_time->0->Ok_0,
                            power_limit,
                        },
                    ),
                ),
                Some(problem) => Err(problem),
            },
            Some(ChargingPlan::NoLimit) => Ok(Some(plan::ChargingPlan::NoLimit)),
        }
    }

    /// Check Args consistency
    pub fn check(&self) -> (r: Result<(), InvalidServerIp>)
        ensures
            r is Err <==> (self.command matches Some(Command::SetServerIp(ip)) && forall|
                address: Ipv4Address,
            | ip.ip_address@ != #[trigger] address.text()),
    {
        match &self.command {
            Some(Command::SetServerIp(ip)) => match ip.get_ip_address() {
                Ok(_) => Ok(()),
                Err(e) => Err(e),
            },
            _ => Ok(()),
        }
    }

    pub fn is_dry_run(&self) -> (r: bool)
        ensures
            r == (self.command is None),
    {
        self.command.is_none()
    }

    pub fn is_run(&self) -> (r: bool)
        ensures
            r == (self.command == Some(Command::Run)),
    {
        match &self.command {
            Some(command) => command.is_run(),
            None => false,
        }
    }

    pub fn is_stop_session(&self) -> (r: bool)
        ensures
            r == (self.command == Some(Command::StopSession)),
    {
        match &self.command {
            Some(command) => command.is_stop_session(),
            None => false,
        }
    }

    pub fn is_reboot(&self) -> (r: bool)
        ensures
            r == (self.command == Some(Command::Reboot)),
    {
        match &self.command {
            Some(command) => command.is_reboot(),
            None => false,
        }
    }

    /// The charging plan of the arguments, with the end time as it was read, or what is wrong with
    /// it.
    pub fn plan_with_end_time(&self, end_time: Option<Result<TimeOfDay, String>>) -> (r: Result<
        Option<plan::ChargingPlan>,
        String,
    >)
        ensures
            match r {
                Ok(plan) => self.plan(end_time_view(end_time)) == Ok::<
                    Option<plan::ChargingPlan>,
                    Seq<char>,
                >(plan),
                Err(problem) => self.plan(end_time_view(end_time)) == Err::<
                    Option<plan::ChargingPlan>,
                    Seq<char>,
                >(problem@),
            },
    {
        let charging_plan = match self.charging_plan {
            Some(charging_plan) => charging_plan,
            None => {
                return Ok(None);
            },
        };
        let power_limit = self.power_limit;
        match charging_plan {
            ChargingPlan::Blocking => Ok(Some(plan::ChargingPlan::Blocking)),
            ChargingPlan::OffPeakToday => Ok(
                Some(plan::ChargingPlan::OffPeakToday { power_limit }),
            ),
            ChargingPlan::OffPeakTomorrow => Ok(
                Some(plan::ChargingPlan::OffPeakTomorrow { power_limit }),
            ),
            ChargingPlan::ReachSocCapBefore => {
                let has_cap = self.soc_cap.is_some();
                let mut problem = String::new();
                if !has_cap {
                    problem.append("'reach-soc-cap-before' requires soc-cap to be specified");
                }
                proof {
                    reveal_strlit("\n");
                    assert("\n"@ =~= seq!['\n']);
                }
                match end_time {
                    Some(Ok(end_time)) => {
                        if has_cap {
                            return Ok(
                                Some(
                                    plan::ChargingPlan::ReachSocCapBefore { end_time, power_limit },
                                ),
                            );
                        }
                    },
                    Some(Err(reason)) => {
                        if !has_cap {
                            problem.append("\n");
                        }
                        problem.append("'reach-soc-cap-before' failed to parse end_time: ");
                        problem.append(reason.as_str());
                    },
                    None => {
                        if !has_cap {
                            problem.append("\n");
                        }
                        problem.append("'reach-soc-cap-before' requires end-time to be specified");
                    },
                }
                proof {
                    let expected = reach_problem(has_cap, end_time_view(end_time))->0;
                    assert(problem@ =~= expected);
                }
                Err(problem)
            },
            ChargingPlan::NoLimit => Ok(Some(plan::ChargingPlan::NoLimit)),
        }
    }

    /// The charging plan of the arguments, or what is wrong with it.
    pub fn to_charging_plan(&self) -> (r: Result<Option<plan::ChargingPlan>, String>)
        ensures
            match r {
                Ok(plan) => self.plan(self.read_end_time()) == Ok::<
                    Option<plan::ChargingPlan>,
                    Seq<char>,
                >(plan),
                Err(problem) => self.plan(self.read_end_time()) == Err::<
                    Option<plan::ChargingPlan>,
                    Seq<char>,
                >(problem@),
            },
            r matches Ok(Some(plan::ChargingPlan::ReachSocCapBefore { end_time, .. }))
                ==> end_time.valid(),
    {
        let end_time = match &self.end_time {
            Some(text) => Some(parse_time_of_day(text.as_str())),
            None => None,
        };
        self.plan_with_end_time(end_time)
    }
}

/// Whatever plan with a power limit comes of the arguments, its power limit is that of the
/// arguments.
pub proof fn law_plan_keeps_power_limit(
    args: Args,
    end_time: Option<Result<TimeOfDay, Seq<char>>>,
)
    ensures
        args.plan(end_time) matches Ok(Some(plan::ChargingPlan::OffPeakToday { power_limit }))
            ==> power_limit == args.power_limit,
        args.plan(end_time) matches Ok(Some(plan::ChargingPlan::OffPeakTomorrow { power_limit }))
            ==> power_limit == args.power_limit,
        args.plan(end_time) matches Ok(
            Some(plan::ChargingPlan::ReachSocCapBefore { power_limit, .. }),
        ) ==> power_limit == args.power_limit,
{
}

/// Arguments with different power limits never come to the same plan with a power limit, and
/// arguments that differ in nothing but what a plan is not made of come to the same plan.
pub proof fn law_plans_differ_by_power_limit(
    args: Args,
    other: Args,
    end_time: Option<Result<TimeOfDay, Seq<char>>>,
)
    ensures
        args.power_limit != other.power_limit && args.plan(end_time) == other.plan(end_time) ==> {
            ||| args.plan(end_time) is Err
            ||| args.plan(end_time)->Ok_0 is None
            ||| args.plan(end_time)->Ok_0->0 is Blocking
            ||| args.plan(end_time)->Ok_0->0 is NoLimit
        },
        args.power_limit == other.power_limit && args.charging_plan == other.charging_plan && (
        args.soc_cap is Some <==> other.soc_cap is Some) ==> args.plan(end_time) == other.plan(
            end_time,
        ),
{
}

/// The plan that comes of the arguments is of the kind that was asked for, with the end time that
/// was read. There is none where none was asked for. One to reach the limit on the state of charge
/// needs both the limit and an end time that can be read, and what is asked for without them is the
/// only thing that goes wrong.
pub proof fn law_plan_is_the_one_asked_for(
    args: Args,
    end_time: Option<Result<TimeOfDay, Seq<char>>>,
)
    ensures
        ({
            let result = args.plan(end_time);
            let reachable = args.soc_cap is Some && end_time is Some && end_time->0 is Ok;
            &&& result is Err <==> args.charging_plan == Some(ChargingPlan::ReachSocCapBefore)
                && !reachable
            &&& args.charging_plan is None ==> result == Ok::<
                Option<plan::ChargingPlan>,
                Seq<char>,
            >(None)
            &&& args.charging_plan is Some && result is Ok ==> {
                let plan = result->Ok_0->0;
                &&& result->Ok_0 is Some
                &&& plan is Blocking <==> args.charging_plan->0 is Blocking
                &&& plan is OffPeakToday <==> args.charging_plan->0 is OffPeakToday
                &&& plan is OffPeakTomorrow <==> args.charging_plan->0 is OffPeakTomorrow
                &&& plan is ReachSocCapBefore <==> args.charging_plan->0 is ReachSocCapBefore
                &&& plan is NoLimit <==> args.charging_plan->0 is NoLimit
                &&& plan is ReachSocCapBefore ==> plan->end_time == end_time->0->Ok_0
            }
        }),
{
}

/// What is wrong is told in full: the limit that is missing is named, and so is the end time that is
/// missing, or why it cannot be read, each on a line of its own.
pub proof fn law_problems_are_named(
    has_cap: bool,
    end_time: Option<Result<TimeOfDay, Seq<char>>>,
)
    ensures
        ({
            let cap = "'reach-soc-cap-before' requires soc-cap to be specified"@;
            let end = "'reach-soc-cap-before' requires end-time to be specified"@;
            let unreadable = "'reach-soc-cap-before' failed to parse end_time: "@;
            let of_end = match end_time {
                None => Some(end),
                Some(Err(reason)) => Some(unreadable + reason),
                Some(Ok(_)) => None,
            };
            &&& has_cap ==> reach_problem(has_cap, end_time) == of_end
            &&& !has_cap && of_end is None ==> reach_problem(has_cap, end_time) == Some(cap)
            &&& !has_cap && of_end is Some ==> reach_problem(has_cap, end_time) is Some
                && reach_problem(has_cap, end_time)->0 =~= cap + seq!['\n'] + of_end->0
        }),
{
}

/// A percentage makes a hundredth of a full battery for each percent.
pub proof fn law_percent_is_a_hundredth(value: u8)
    ensures
        100 * percent(value) == value * 1_000_000_000_000,
{
}

/// The battery that comes of the arguments has the capacity and the loss of the arguments. Its
/// initial state of charge is absolute, and is the percentage of the arguments, and so is the limit.
/// Nothing else is known of it, and it is in its initial state of charge.
pub proof fn law_battery_is_the_one_described(args: &Args)
    ensures
        ({
            let bms = <Bms as FromSpec<&Args>>::from_spec(args);
            &&& bms.capacity == args.battery_capacity
            &&& bms.constant_power_loss == args.constant_power_loss
            &&& bms.initial_energy is None
            &&& bms.current_energy is None
            &&& bms.current_soc == bms.initial_soc
            &&& match args.initial_soc {
                Some(value) => bms.initial_soc is Absolute && 100 * bms.initial_soc->Absolute_0
                    == value * 1_000_000_000_000,
                None => bms.initial_soc is Unknown,
            }
            &&& match args.soc_cap {
                Some(value) => bms.soc_cap is Some && 100 * bms.soc_cap->0 == value
                    * 1_000_000_000_000,
                None => bms.soc_cap is None,
            }
        }),
{
}

/// An address is written as four numbers with a dot between each two of them.
pub proof fn law_address_is_four_numbers(a: Ipv4Address)
    ensures
        a.text() =~= decimal(a.0 as nat) + seq!['.'] + decimal(a.1 as nat) + seq!['.'] + decimal(
            a.2 as nat,
        ) + seq!['.'] + decimal(a.3 as nat),
{
}

/// The end time of the arguments is read where there is one.
pub proof fn law_end_time_is_read(args: Args)
    ensures
        args.read_end_time() is Some <==> args.end_time is Some,
        args.end_time is Some ==> args.read_end_time() == Some(time_of_day_in(args.end_time->0@)),
{
}

} // verus!
