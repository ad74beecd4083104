use report_creation::dispatcher::{
    interpret, parse_command, parse_u64, Command, Dispatcher, NANOS_PER_SECOND,
};
use report_creation::strings::{same_text, split_whitespace};

#[test]
fn parses_every_verb() {
    assert_eq!(parse_command("pause"), Ok(Command::Pause));
    assert_eq!(parse_command("resume"), Ok(Command::Resume));
    assert_eq!(parse_command("step"), Ok(Command::Step(1)));
    assert_eq!(parse_command("step 25"), Ok(Command::Step(25)));
    assert_eq!(parse_command("rate 120"), Ok(Command::SetTickRate(120)));
    assert_eq!(parse_command("tick_rate 30"), Ok(Command::SetTickRate(30)));
    assert_eq!(
        parse_command("custom  hello   world "),
        Ok(Command::Custom("hello world".to_string()))
    );
    assert_eq!(parse_command("custom"), Ok(Command::Custom(String::new())));
    assert_eq!(parse_command("quit"), Ok(Command::Terminate));
    assert_eq!(parse_command("exit"), Ok(Command::Terminate));
    assert_eq!(parse_command("terminate"), Ok(Command::Terminate));
}

#[test]
fn verb_is_read_in_any_case() {
    assert_eq!(parse_command("PAUSE"), Ok(Command::Pause));
    assert_eq!(parse_command("  Step 3"), Ok(Command::Step(3)));
    assert_eq!(parse_command("Tick_Rate\t7"), Ok(Command::SetTickRate(7)));
    assert_eq!(
        parse_command("TIC\u{212a}_RATE 9"),
        Ok(Command::SetTickRate(9))
    );
    assert_eq!(
        parse_command("Custom Keep Case"),
        Ok(Command::Custom("Keep Case".to_string()))
    );
}

#[test]
fn reports_what_is_wrong() {
    assert_eq!(
        parse_command(""),
        Err("empty command received".to_string())
    );
    assert_eq!(
        parse_command("   "),
        Err("empty command received".to_string())
    );
    assert_eq!(
        parse_command("step many"),
        Err("Invalid step count: many".to_string())
    );
    assert_eq!(
        parse_command("step -1"),
        Err("Invalid step count: -1".to_string())
    );
    assert_eq!(
        parse_command("rate"),
        Err("tick rate requires a numeric value".to_string())
    );
    assert_eq!(
        parse_command("rate fast"),
        Err("Invalid tick rate: fast".to_string())
    );
    assert_eq!(
        parse_command("rate 0"),
        Err("Tick rate must be greater than zero".to_string())
    );
    assert_eq!(
        parse_command("Dance now"),
        Err("Unknown command: dance".to_string())
    );
}

#[test]
fn further_words_are_ignored_where_none_is_asked_for() {
    assert_eq!(parse_command("pause now please"), Ok(Command::Pause));
    assert_eq!(parse_command("step 2 3"), Ok(Command::Step(2)));
    assert_eq!(parse_command("rate 5 6"), Ok(Command::SetTickRate(5)));
}

#[test]
fn interpret_takes_the_verb_as_it_is() {
    assert_eq!(interpret("pause", &Vec::new()), Ok(Command::Pause));
    assert_eq!(
        interpret("PAUSE", &Vec::new()),
        Err("Unknown command: PAUSE".to_string())
    );
    assert_eq!(
        interpret("step", &vec!["+4".to_string()]),
        Ok(Command::Step(4))
    );
}

#[test]
fn numbers_are_read_as_the_standard_library_reads_them() {
    let samples = [
        "", "+", "-", "0", "7", "+7", "-7", "007", "+007", "18446744073709551615",
        "18446744073709551616", "99999999999999999999999", "1 ", " 1", "1_000", "0x10", "1e3",
        "１２", "++1", "1+", "12a", "a12",
    ];
    for sample in samples {
        assert_eq!(parse_u64(sample), sample.parse::<u64>().ok(), "{sample:?}");
    }
    assert_eq!(parse_u64("18446744073709551615"), Some(u64::MAX));
    assert_eq!(parse_u64("18446744073709551616"), None);
}

#[test]
fn words_are_split_as_the_standard_library_splits_them() {
    let samples = [
        "",
        " ",
        "one",
        " one  two\tthree\n",
        "a\u{a0}b\u{3000}c",
        "\u{2003}x",
        "zero\u{200b}width",
    ];
    for sample in samples {
        let expected: Vec<String> = sample.split_whitespace().map(str::to_string).collect();
        assert_eq!(split_whitespace(sample), expected, "{sample:?}");
    }
}

#[test]
fn same_text_compares_contents() {
    assert!(same_text("", ""));
    assert!(same_text("pause", "pause"));
    assert!(!same_text("pause", "paus"));
    assert!(!same_text("pause", "pausE"));
    assert!(same_text("é", "\u{e9}"));
    assert!(!same_text("é", "e\u{301}"));
}

#[test]
fn dispatcher_starts_running() {
    let dispatcher = Dispatcher::new(60);
    assert_eq!(dispatcher.tick_rate, 60);
    assert_eq!(dispatcher.tick_nanos, 16_666_666);
    assert!(!dispatcher.paused);
    assert_eq!(Dispatcher::new(1).tick_nanos, NANOS_PER_SECOND);
    assert_eq!(Dispatcher::new(u64::MAX).tick_nanos, 0);
    dispatcher.process_tick();
}

#[test]
fn dispatcher_reacts_to_commands() {
    let mut dispatcher = Dispatcher::new(60);

    let reaction = dispatcher.handle_command(Command::Pause);
    assert_eq!(reaction.message, "Dispatcher paused");
    assert_eq!((reaction.ticks, reaction.terminate), (0, false));
    assert!(dispatcher.paused);

    let reaction = dispatcher.handle_command(Command::Step(12));
    assert_eq!(reaction.message, "Stepping dispatcher for 12 tick(s)");
    assert_eq!((reaction.ticks, reaction.terminate), (12, false));
    assert!(dispatcher.paused);

    let reaction = dispatcher.handle_command(Command::Resume);
    assert_eq!(reaction.message, "Dispatcher resumed");
    assert!(!dispatcher.paused);

    let reaction = dispatcher.handle_command(Command::SetTickRate(1000));
    assert_eq!(reaction.message, "Tick rate updated to 1000 ticks/second");
    assert_eq!(dispatcher.tick_rate, 1000);
    assert_eq!(dispatcher.tick_nanos, 1_000_000);
    assert!(!dispatcher.paused);

    let reaction = dispatcher.handle_command(Command::Custom("ping".to_string()));
    assert_eq!(reaction.message, "Received custom command: ping");
    assert_eq!((reaction.ticks, reaction.terminate), (0, false));

    let reaction = dispatcher.handle_command(Command::Terminate);
    assert_eq!(
        reaction.message,
        "Termination command received. Exiting dispatcher."
    );
    assert!(reaction.terminate);
    assert_eq!(dispatcher.tick_rate, 1000);
}

#[test]
fn tick_rate_update_says_the_new_rate() {
    let mut dispatcher = Dispatcher::new(60);
    assert_eq!(
        dispatcher.update_tick_rate(18446744073709551615),
        "Tick rate updated to 18446744073709551615 ticks/second"
    );
    assert_eq!(dispatcher.tick_nanos, 0);
    assert_eq!(
        dispatcher.update_tick_rate(3),
        "Tick rate updated to 3 ticks/second"
    );
    assert_eq!(dispatcher.tick_nanos, 333_333_333);
}
