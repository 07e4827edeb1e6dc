use tally::ledger::{Effect, Ledger, Record};
use tally::timestamp::Timestamp;

fn ts(day: u8, month: u8, year: u16, hour: u8, minute: u8, second: u8) -> Timestamp {
    Timestamp::new(day, month, year, hour, minute, second).unwrap()
}

fn sample_ledger() -> Ledger {
    Ledger {
        label: String::from("my money"),
        records: vec![
            Record {
                desc: String::from("initial payment"),
                amount: 4802,
                effect: Effect::Additive,
                ts: ts(29, 6, 2023, 0, 0, 0),
            },
            Record {
                desc: String::from("XBOX GAMES"),
                amount: 750,
                effect: Effect::Subtractive,
                ts: ts(30, 5, 2023, 14, 43, 50),
            },
            Record {
                desc: String::from("balls and beer"),
                amount: 460,
                effect: Effect::Subtractive,
                ts: ts(30, 5, 2023, 15, 28, 42),
            },
            Record {
                desc: String::from("costco hotdog"),
                amount: 150,
                effect: Effect::Subtractive,
                ts: ts(31, 5, 2023, 17, 0, 0),
            },
            Record {
                desc: String::from("bottle of rum :)"),
                amount: 2350,
                effect: Effect::Subtractive,
                ts: ts(1, 6, 2023, 17, 42, 0),
            },
        ],
    }
}

#[test]
fn scenario_my_money_lines() {
    let ledger = sample_ledger();
    let lines = ledger.render_lines();
    assert_eq!(lines.len(), 6);
    assert_eq!(lines[0], "my money:");
    assert_eq!(lines[1], "\t£            48.02 + : 29/06/2023 00:00:00 : initial payment");
    assert_eq!(lines[2], "\t£             7.50 - : 30/05/2023 14:43:50 : XBOX GAMES");
    assert_eq!(lines[3], "\t£             4.60 - : 30/05/2023 15:28:42 : balls and beer");
    assert_eq!(lines[4], "\t£             1.50 - : 31/05/2023 17:00:00 : costco hotdog");
    assert_eq!(lines[5], "\t£            23.50 - : 01/06/2023 17:42:00 : bottle of rum :)");
}

#[test]
fn scenario_my_money_total() {
    let ledger = sample_ledger();
    assert_eq!(ledger.total(), 4802 - 750 - 460 - 150 - 2350);
    assert_eq!(ledger.total(), 1092);
}

#[test]
fn scenario_my_money_full_text() {
    let ledger = sample_ledger();
    let expected = "my money:\n\
        \t£            48.02 + : 29/06/2023 00:00:00 : initial payment\n\
        \t£             7.50 - : 30/05/2023 14:43:50 : XBOX GAMES\n\
        \t£             4.60 - : 30/05/2023 15:28:42 : balls and beer\n\
        \t£             1.50 - : 31/05/2023 17:00:00 : costco hotdog\n\
        \t£            23.50 - : 01/06/2023 17:42:00 : bottle of rum :)\n";
    let rendered = ledger.render();
    assert_eq!(rendered, expected);
    assert_eq!(rendered.chars().filter(|c| *c == '\n').count(), ledger.records.len() + 1);
}

#[test]
fn render_and_total_are_idempotent() {
    let ledger = sample_ledger();
    assert_eq!(ledger.render(), ledger.render());
    assert_eq!(ledger.render_lines(), ledger.render_lines());
    assert_eq!(ledger.total(), ledger.total());
}

#[test]
fn empty_ledger() {
    let ledger = Ledger { label: String::from("nothing"), records: vec![] };
    assert_eq!(ledger.total(), 0);
    assert_eq!(ledger.render(), "nothing:\n");
    let lines = ledger.render_lines();
    assert_eq!(lines.len(), 1);
    assert_eq!(lines[0], "nothing:");
}

#[test]
fn effect_signs() {
    assert_eq!(Effect::Additive.to_str(), "+");
    assert_eq!(Effect::Subtractive.to_str(), "-");
}

#[test]
fn additive_only_total() {
    let ledger = Ledger {
        label: String::from("income"),
        records: vec![
            Record {
                desc: String::from("a"),
                amount: 1,
                effect: Effect::Additive,
                ts: ts(1, 1, 2023, 0, 0, 0),
            },
            Record {
                desc: String::from("b"),
                amount: u64::MAX,
                effect: Effect::Additive,
                ts: ts(1, 1, 2023, 0, 0, 0),
            },
        ],
    };
    assert_eq!(ledger.total(), 1 + u64::MAX as i128);
}

#[test]
fn subtractive_total_goes_negative() {
    let ledger = Ledger {
        label: String::from("debts"),
        records: vec![Record {
            desc: String::from("loan"),
            amount: 500,
            effect: Effect::Subtractive,
            ts: ts(1, 1, 2023, 0, 0, 0),
        }],
    };
    assert_eq!(ledger.total(), -500);
}

#[test]
fn check_wf_accepts_and_rejects() {
    let good = sample_ledger();
    assert!(good.check_wf());
    let bad = Ledger {
        label: String::from("bad"),
        records: vec![Record {
            desc: String::from("x"),
            amount: 1,
            effect: Effect::Additive,
            ts: Timestamp { day: 31, month: 2, year: 2023, hour: 0, minute: 0, second: 0 },
        }],
    };
    assert!(!bad.check_wf());
}
