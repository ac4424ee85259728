//! The inspector's construction and counters.

use restd::{create_config, create_plugin, HelloWorldInspector};

#[test]
fn test_inspector_creation() {
    let inspector = HelloWorldInspector::new();
    assert_eq!(inspector.steps(), 0);
    assert_eq!(inspector.calls(), 0);
}

#[test]
fn test_inspector_default() {
    let inspector = HelloWorldInspector::default();
    assert_eq!(inspector.step_count, 0);
    assert_eq!(inspector.call_count, 0);
}

#[test]
fn test_plugin_creation() {
    let plugin = create_plugin();
    assert_eq!(plugin.name(), "hello-world-inspector");
}

#[test]
fn test_plugin_config() {
    let config = create_config(true);
    assert!(config.verbose);
}

#[test]
fn announcement_is_the_initialization_line() {
    assert_eq!(HelloWorldInspector::announcement(), "Hello, world! Inspector initialized.");
}

#[test]
fn accessors_read_the_fields() {
    let inspector = HelloWorldInspector { step_count: 41, call_count: 7 };
    assert_eq!(inspector.steps(), 41);
    assert_eq!(inspector.calls(), 7);
}

#[test]
fn every_step_is_counted() {
    for n in [0u64, 1, 2, 99, 100, 101, 1000] {
        let mut inspector = HelloWorldInspector::new();
        for _ in 0..n {
            inspector.step(0x01);
        }
        assert_eq!(inspector.steps(), n);
        assert_eq!(inspector.calls(), 0);
    }
}

#[test]
fn every_call_is_counted() {
    for m in [0u64, 1, 2, 17, 300] {
        let mut inspector = HelloWorldInspector::new();
        for _ in 0..m {
            let (_, replacement): (String, Option<()>) = inspector.call([0u8; 20]);
            assert!(replacement.is_none());
        }
        assert_eq!(inspector.calls(), m);
        assert_eq!(inspector.steps(), 0);
    }
}

#[test]
fn step_reports_exactly_the_multiples_of_one_hundred() {
    let mut inspector = HelloWorldInspector::new();
    for expected in 1u64..=1000 {
        let line = inspector.step(0x5b);
        assert_eq!(inspector.step_count, expected);
        assert_eq!(line.is_some(), expected % 100 == 0);
        if let Some(text) = line {
            assert_eq!(text, format!("Hello, world! Step #{} - Opcode: 91", expected));
        }
    }
}

#[test]
fn step_counts_from_where_the_inspector_stands() {
    let mut inspector = HelloWorldInspector { step_count: 18_446_744_073_709_551_599, call_count: 5 };
    let line = inspector.step(0xff);
    assert_eq!(inspector.step_count, 18_446_744_073_709_551_600);
    assert_eq!(inspector.call_count, 5);
    assert_eq!(
        line,
        Some(String::from("Hello, world! Step #18446744073709551600 - Opcode: 255"))
    );
    let mut last = HelloWorldInspector { step_count: u64::MAX - 1, call_count: 0 };
    assert_eq!(last.step(0x00), None);
    assert_eq!(last.step_count, u64::MAX);
}

#[test]
fn two_hundred_and_fifty_steps_then_three_calls() {
    let mut inspector = HelloWorldInspector::new();
    let mut emitted: Vec<String> = Vec::new();
    for _ in 0..250 {
        if let Some(line) = inspector.step(0x60) {
            emitted.push(line);
        }
    }
    assert_eq!(inspector.step_count, 250);
    assert_eq!(
        emitted,
        vec![
            String::from("Hello, world! Step #100 - Opcode: 96"),
            String::from("Hello, world! Step #200 - Opcode: 96"),
        ]
    );

    let mut calls: Vec<String> = Vec::new();
    for _ in 0..3 {
        let (line, replacement): (String, Option<u8>) = inspector.call([0xab; 20]);
        assert_eq!(replacement, None);
        calls.push(line);
    }
    assert_eq!(inspector.call_count, 3);
    assert_eq!(inspector.step_count, 250);
    assert_eq!(
        calls,
        vec![
            String::from("Hello, world! Call #1 to address: 0xabababababababababababababababababababab"),
            String::from("Hello, world! Call #2 to address: 0xabababababababababababababababababababab"),
            String::from("Hello, world! Call #3 to address: 0xabababababababababababababababababababab"),
        ]
    );
}

#[test]
fn only_step_and_call_change_the_counters() {
    let mut inspector = HelloWorldInspector { step_count: 3, call_count: 4 };
    inspector.initialize_interp();
    inspector.step_end();
    inspector.log(2, 64);
    let _: (String, u8) = inspector.call_end(true, 1);
    let _: (String, Option<u8>) = inspector.create(10);
    let _: (String, u8) = inspector.create_end(false, 2);
    inspector.selfdestruct([1; 20], [2; 20], [0; 4]);
    assert_eq!(inspector.step_count, 3);
    assert_eq!(inspector.call_count, 4);
}

#[test]
fn counters_count_hooks_in_any_order() {
    let mut inspector = HelloWorldInspector::new();
    inspector.initialize_interp();
    inspector.step(0x60);
    inspector.step_end();
    let _: (String, Option<()>) = inspector.call([9; 20]);
    inspector.step(0x60);
    inspector.log(0, 0);
    let _: (String, ()) = inspector.call_end(false, ());
    inspector.step(0x00);
    let _: (String, Option<()>) = inspector.call([9; 20]);
    inspector.selfdestruct([9; 20], [8; 20], [1, 0, 0, 0]);
    assert_eq!(inspector.steps(), 3);
    assert_eq!(inspector.calls(), 2);
}

#[test]
fn one_step_in_every_full_hundred_is_reported() {
    for n in [0u64, 1, 99, 100, 101, 199, 200, 250, 999, 1000, 1234] {
        let mut inspector = HelloWorldInspector::new();
        let mut reported = 0u64;
        for _ in 0..n {
            if inspector.step(0x01).is_some() {
                reported += 1;
            }
        }
        assert_eq!(reported, n / 100);
    }
}

#[test]
fn counters_never_decrease() {
    let mut inspector = HelloWorldInspector::new();
    let mut last = (0u64, 0u64);
    for round in 0u64..300 {
        match round % 4 {
            0 => {
                inspector.step(0x00);
            }
            1 => {
                let _: (String, Option<()>) = inspector.call([0; 20]);
            }
            2 => {
                inspector.log(1, 1);
            }
            _ => {
                inspector.step_end();
            }
        }
        assert!(inspector.steps() >= last.0);
        assert!(inspector.calls() >= last.1);
        last = (inspector.steps(), inspector.calls());
    }
    assert_eq!(last, (75, 75));
}
