use evse_server::bms::{Bms, FULL_CHARGE, SOC_TOLERANCE, SoC, SoCProgress, energy_share};

/// A share of the battery, given in percent.
fn percent(n: i64) -> i64 {
    n * FULL_CHARGE / 100
}

#[test]
fn soc_progress_constructor() {
    assert_eq!(SoCProgress::new(true, None, None), SoCProgress::Unknown);
    assert_eq!(
        SoCProgress::new(true, Some(percent(42)), None),
        SoCProgress::AbsoluteUncapped(percent(42))
    );
    assert_eq!(
        SoCProgress::new(true, None, Some(percent(50))),
        SoCProgress::AbsoluteCap(percent(50))
    );
    assert_eq!(
        SoCProgress::new(true, Some(percent(42)), Some(percent(50))),
        SoCProgress::AbsoluteCapNotReached {
            soc: percent(42),
            cap: percent(50)
        }
    );
    assert_eq!(
        SoCProgress::new(true, Some(percent(50)), Some(percent(50))),
        SoCProgress::AbsoluteCapReached {
            soc: percent(50),
            cap: percent(50)
        }
    );

    assert_eq!(SoCProgress::new(false, None, None), SoCProgress::Unknown);
    assert_eq!(
        SoCProgress::new(false, Some(percent(42)), None),
        SoCProgress::RelativeUncapped(percent(42))
    );
    assert_eq!(
        SoCProgress::new(false, None, Some(percent(50))),
        SoCProgress::RelativeCap(percent(50))
    );
    assert_eq!(
        SoCProgress::new(false, Some(percent(42)), Some(percent(50))),
        SoCProgress::RelativeCapNotReached {
            rel_soc: percent(42),
            cap: percent(50)
        }
    );
    assert_eq!(
        SoCProgress::new(false, Some(percent(50)), Some(percent(50))),
        SoCProgress::RelativeCapReached {
            rel_soc: percent(50),
            cap: percent(50)
        }
    );
}

#[test]
fn progress_stays_between_empty_and_full() {
    assert_eq!(
        SoCProgress::new(true, Some(percent(120)), Some(percent(-5))),
        SoCProgress::AbsoluteCapReached {
            soc: FULL_CHARGE,
            cap: 0
        }
    );
    assert_eq!(
        SoCProgress::new(false, Some(percent(-1)), None),
        SoCProgress::RelativeUncapped(0)
    );
}

#[test]
fn energy_makes_a_share_of_the_battery() {
    assert_eq!(energy_share(481, 48_100), percent(1));
    assert_eq!(energy_share(48_100, 48_100), FULL_CHARGE);
    assert_eq!(energy_share(1, 3), 333_333_333_333);
    assert_eq!(energy_share(-1, 3), -333_333_333_334);
    assert_eq!(energy_share(0, 48_100), 0);
    assert_eq!(energy_share(1, 0), i64::MAX);
    assert_eq!(energy_share(-1, 0), i64::MIN);
    assert_eq!(energy_share(u64::MAX as i128, 1), i64::MAX);
}

#[test]
fn kinds_of_soc() {
    assert!(SoC::new_absolute(Some(1)).is_absolute());
    assert!(SoC::new_relative(Some(1)).is_relative());
    assert!(SoC::new_absolute(None).is_unknown());
    assert!(SoC::new_relative(None).is_unknown());
    assert!(SoC::default().is_unknown());
    assert_eq!(SoC::Absolute(7).absolute(), Some(7));
    assert_eq!(SoC::Absolute(7).relative(), None);
    assert_eq!(SoC::Relative(7).relative(), Some(7));
    assert_eq!(SoC::Relative(7).absolute(), None);
    assert_eq!(SoC::Relative(7).inner(), Some(7));
    assert_eq!(SoC::Unknown.inner(), None);
    let mut soc = SoC::Unknown;
    soc.update(SoC::Relative(9));
    assert_eq!(soc.inner(), Some(9));
}

#[test]
fn soc_is_the_same_within_one_percent() {
    let soc = SoC::Absolute(percent(30));
    assert_eq!(soc, SoC::Absolute(percent(30) + SOC_TOLERANCE - 1));
    assert_eq!(soc, SoC::Absolute(percent(30) - SOC_TOLERANCE + 1));
    assert_ne!(soc, SoC::Absolute(percent(31)));
    assert_ne!(soc, SoC::Absolute(percent(29)));
    assert_ne!(soc, SoC::Relative(percent(30)));
    assert_ne!(soc, SoC::Unknown);
    assert_eq!(SoC::Unknown, SoC::Unknown);
}

#[test]
fn raised_and_lowered() {
    let soc = SoC::Absolute(percent(30));
    assert_eq!((soc + percent(5)).absolute(), Some(percent(35)));
    assert_eq!((soc + percent(5) - percent(5)).absolute(), Some(percent(30)));
    assert_eq!((SoC::Unknown + percent(5)).relative(), Some(percent(5)));
    assert_eq!((SoC::Unknown - percent(5)).relative(), Some(percent(5)));
    assert_eq!((SoC::Relative(i64::MAX) + 1).relative(), Some(i64::MAX));
    assert_eq!((SoC::Relative(i64::MIN) - 1).relative(), Some(i64::MIN));
}

#[test]
fn progress_gives_back_soc_and_cap() {
    let progress = SoCProgress::from_soc_and_cap(SoC::Absolute(percent(30)), Some(percent(60)));
    assert!(!progress.is_complete());
    assert_eq!(progress.soc().absolute(), Some(percent(30)));
    assert_eq!(progress.cap().absolute(), Some(percent(60)));
    assert_eq!(progress.absolute_soc(), Some(percent(30)));

    let progress = SoCProgress::from_soc_and_cap(SoC::Relative(percent(30)), Some(percent(30)));
    assert!(progress.is_complete());
    assert_eq!(progress.soc().relative(), Some(percent(30)));
    assert_eq!(progress.cap().relative(), Some(percent(30)));
    assert_eq!(progress.absolute_soc(), None);

    let progress = SoCProgress::from_soc_and_cap(SoC::Unknown, None);
    assert_eq!(progress, SoCProgress::Unknown);
    assert!(progress.soc().is_unknown());
    assert!(progress.cap().is_unknown());
}

#[test]
fn charge_follows_the_meter() {
    let mut bms = Bms::builder(48_100, 400)
        .initial_energy(1_000)
        .initial_soc(SoC::Absolute(percent(30)))
        .soc_cap(Some(percent(32)))
        .build();
    assert_eq!(bms.current_soc.absolute(), Some(percent(30)));

    bms.have_energy(1_481);
    assert_eq!(bms.current_soc.absolute(), Some(percent(31)));
    assert_eq!(bms.current_energy, Some(1_481));
    assert!(!bms.soc_progress().is_complete());

    // not above the previous reading
    bms.have_energy(1_481);
    bms.have_energy(1_200);
    assert_eq!(bms.current_soc.absolute(), Some(percent(31)));
    assert_eq!(bms.current_energy, Some(1_481));

    bms.have_energy(1_962);
    assert_eq!(
        bms.soc_progress(),
        SoCProgress::AbsoluteCapReached {
            soc: percent(32),
            cap: percent(32)
        }
    );
}

#[test]
fn without_initial_reading_nothing_is_known() {
    let mut bms = Bms::builder(48_100, 400).soc_cap(Some(percent(32))).build();
    bms.have_energy(5_000);
    assert_eq!(bms.current_energy, None);
    assert!(bms.current_soc.is_unknown());
}

#[test]
fn energy_that_is_missing() {
    let bms = Bms::builder(48_100, 400)
        .initial_soc(SoC::Absolute(percent(30)))
        .soc_cap(Some(percent(60)))
        .build();
    assert_eq!(bms.soc_cap().absolute(), Some(percent(60)));
    // 30 % of 48100 Wh
    assert_eq!(
        bms.energy_to_soc(bms.soc_cap()),
        Some(14_430 * FULL_CHARGE as i128)
    );
    // the target is reached already
    assert_eq!(bms.energy_to_soc(SoC::Absolute(percent(10))), Some(0));
    assert_eq!(bms.energy_to_soc(SoC::Relative(percent(60))), None);
    assert_eq!(bms.energy_to_soc(SoC::Unknown), None);
}

#[test]
fn missed_reading_makes_no_difference() {
    let bms = Bms::builder(48_100, 400)
        .initial_energy(1_000)
        .initial_soc(SoC::Absolute(percent(30)))
        .build();
    let mut all = bms;
    for energy in [1_100, 1_200, 1_200, 1_150, 1_300] {
        let before = all.current_soc.absolute();
        all.have_energy(energy);
        assert!(before <= all.current_soc.absolute());
    }
    let mut last = bms;
    last.have_energy(1_300);
    assert_eq!(all.current_soc.absolute(), last.current_soc.absolute());
    assert_eq!(all.current_energy, last.current_energy);
}
