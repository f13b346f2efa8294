use rx8010sj::sim::SimBus;
use rx8010sj::time::{DateTime, Month, Weekday};
use rx8010sj::Rx8010sj;

#[test]
fn fresh_sim_has_zeroed_registers() {
    let sim = SimBus::new();
    assert_eq!(sim.register(0x00), 0);
    assert_eq!(sim.register(0x10), 0);
    assert_eq!(sim.register(0xff), 0);
}

#[test]
fn set_register_reads_back() {
    let mut sim = SimBus::new();
    sim.set_register(0x1f, 0x93);
    assert_eq!(sim.register(0x1f), 0x93);
    assert_eq!(sim.register(0x1e), 0);
    assert_eq!(sim.register(0x20), 0);
}

#[test]
fn stop_flag_round_trip_on_the_sim() {
    let mut sim = SimBus::new();
    sim.set_register(0x1f, 0x93);
    let mut rtc = Rx8010sj::new(sim);
    assert_eq!(rtc.is_stopped(), Ok(false));
    rtc.set_stopped(true).unwrap();
    assert_eq!(rtc.is_stopped(), Ok(true));
    rtc.set_stopped(false).unwrap();
    assert_eq!(rtc.is_stopped(), Ok(false));
}

#[test]
fn time_round_trip_on_the_sim() {
    let sim = SimBus::new();
    let mut rtc = Rx8010sj::new(sim);
    let dt = DateTime {
        year: 2024,
        month: Month::February,
        day: 29,
        weekday: Weekday::Thursday,
        hour: 23,
        minute: 59,
        second: 58,
    };
    rtc.set_time(dt).unwrap();
    assert_eq!(rtc.get_time(), Ok(dt));
}

#[test]
fn fresh_sim_decodes_to_the_sentinel_date() {
    // All-zero registers: second, minute and hour are a valid midnight, but
    // day 0 is no date, so the date falls back to 1970, January, day 0.
    let sim = SimBus::new();
    let mut rtc = Rx8010sj::new(sim);
    let dt = rtc.get_time().unwrap();
    assert_eq!(
        dt,
        DateTime {
            year: 1970,
            month: Month::January,
            day: 0,
            weekday: Weekday::Sunday,
            hour: 0,
            minute: 0,
            second: 0,
        }
    );
}
