use std::collections::BTreeMap;

use fii::error::Failure;
use fii::record::{History, Month, Year};

const TEST_INCOME: u32 = 12_345;
const TEST_EXPENSES: u16 = 6_789;
const TEST_INVESTMENTS: u32 = 1_234_567;
const TEST_YEAR: u16 = 2018;

fn january() -> Month {
    Month::new(String::from("january"), TEST_INCOME, TEST_EXPENSES, TEST_INVESTMENTS)
}

fn sample_history() -> History {
    let mut y1 = Year::new(2018);
    y1.add_month(Month::new(String::from("jan"), 12_345, 6_789, 1_234_567));
    y1.add_month(Month::new(String::from("feb"), 20_000, 7_000, 1_300_000));
    let mut y2 = Year::new(2017);
    y2.add_month(Month::new(String::from("dec"), 0, 0, 0));
    let mut h = History::new();
    h.add_year(y1);
    h.add_year(Year::new(2020));
    h.add_year(y2);
    h
}

fn table(entries: Vec<(&str, toml::Value)>) -> toml::Value {
    let mut t = BTreeMap::new();
    for (k, v) in entries {
        t.insert(String::from(k), v);
    }
    toml::Value::Table(t)
}

fn month_table(name: &str, income: i64, expenses: i64, investments: i64) -> toml::Value {
    table(vec![
        ("name", toml::Value::String(String::from(name))),
        ("income", toml::Value::Integer(income)),
        ("expenses", toml::Value::Integer(expenses)),
        ("investments", toml::Value::Integer(investments)),
    ])
}

#[test]
fn toml_serde_month_unity() {
    let m = january();
    let m_ser = m.encode().unwrap();
    let m_de = Month::decode(&m_ser).unwrap();

    assert_eq!(m, m_de)
}

#[test]
fn toml_serde_year_unity() {
    let y = Year::new(TEST_YEAR);
    let y_ser = y.encode().unwrap();
    let y_de = Year::decode(&y_ser).unwrap();

    assert_eq!(y, y_de)
}

#[test]
fn toml_serde_history_unity() {
    let y = Year::new(TEST_YEAR);
    let mut h = History::new();
    h.add_year(y);
    let h_ser = h.encode().unwrap();
    let h_de = History::decode(&h_ser).unwrap();

    assert_eq!(h, h_de)
}

#[test]
fn empty_history_round_trips() {
    let h = History::new();
    let text = h.encode().unwrap();
    assert_eq!(History::decode(&text), Ok(History::new()))
}

#[test]
fn history_round_trips_in_order() {
    let h = sample_history();
    let text = h.encode().unwrap();
    let back = History::decode(&text).unwrap();
    assert_eq!(back, sample_history());
    assert_eq!(back.years()[0].id(), 2018);
    assert_eq!(back.years()[1].id(), 2020);
    assert_eq!(back.years()[2].id(), 2017);
    assert_eq!(back.years()[0].months()[0].name(), "jan");
    assert_eq!(back.years()[0].months()[1].name(), "feb")
}

#[test]
fn history_round_trips_through_its_value() {
    let h = sample_history();
    assert_eq!(History::from_value(&h.to_value()), Some(sample_history()));
    let empty = History::new();
    assert_eq!(History::from_value(&empty.to_value()), Some(History::new()))
}

#[test]
fn year_with_months_round_trips() {
    let mut y = Year::new(2018);
    y.add_month(january());
    y.add_month(Month::new(String::from("feb"), 1, 2, 3));
    let text = y.encode().unwrap();
    let back = Year::decode(&text).unwrap();
    assert_eq!(back.id(), 2018);
    assert_eq!(back.months().len(), 2);
    assert_eq!(back.months()[0], january());
    assert_eq!(back.months()[1], Month::new(String::from("feb"), 1, 2, 3))
}

#[test]
fn extreme_values_round_trip() {
    let m = Month::new(String::from("a \"quoted\" name\nwith = signs # and [brackets]"), u32::MAX, u16::MAX, u32::MAX);
    let text = m.encode().unwrap();
    let back = Month::decode(&text).unwrap();
    assert_eq!(back.name(), "a \"quoted\" name\nwith = signs # and [brackets]");
    assert_eq!(back.income(), u32::MAX);
    assert_eq!(back.expenses(), u16::MAX);
    assert_eq!(back.investments(), u32::MAX);
    let mut y = Year::new(u16::MAX);
    y.add_month(Month::new(String::new(), 0, 0, 0));
    assert_eq!(Year::decode(&y.encode().unwrap()), Ok(y))
}

#[test]
fn month_value_holds_the_four_fields() {
    let v = january().to_value();
    assert_eq!(v, month_table("january", 12_345, 6_789, 1_234_567))
}

#[test]
fn year_value_holds_id_and_months() {
    let mut y = Year::new(2018);
    y.add_month(january());
    let v = y.to_value();
    let want = table(vec![
        ("id", toml::Value::Integer(2018)),
        ("months", toml::Value::Array(vec![month_table("january", 12_345, 6_789, 1_234_567)])),
    ]);
    assert_eq!(v, want);
    let empty = Year::new(7).to_value();
    assert_eq!(empty, table(vec![("id", toml::Value::Integer(7)), ("months", toml::Value::Array(vec![]))]))
}

#[test]
fn history_value_holds_years() {
    let mut h = History::new();
    h.add_year(Year::new(2018));
    h.add_year(Year::new(2019));
    let year = |id: i64| table(vec![("id", toml::Value::Integer(id)), ("months", toml::Value::Array(vec![]))]);
    let want = table(vec![("years", toml::Value::Array(vec![year(2018), year(2019)]))]);
    assert_eq!(h.to_value(), want)
}

#[test]
fn month_from_value_reads_the_four_fields() {
    let m = Month::from_value(&month_table("jan", 1, 2, 3)).unwrap();
    assert_eq!(m, Month::new(String::from("jan"), 1, 2, 3))
}

#[test]
fn month_from_value_checks_ranges() {
    assert_eq!(Month::from_value(&month_table("jan", 4_294_967_295, 65_535, 4_294_967_295)),
        Some(Month::new(String::from("jan"), u32::MAX, u16::MAX, u32::MAX)));
    assert_eq!(Month::from_value(&month_table("jan", 4_294_967_296, 0, 0)), None);
    assert_eq!(Month::from_value(&month_table("jan", 0, 65_536, 0)), None);
    assert_eq!(Month::from_value(&month_table("jan", 0, 0, 4_294_967_296)), None);
    assert_eq!(Month::from_value(&month_table("jan", -1, 0, 0)), None);
    assert_eq!(Month::from_value(&month_table("jan", 0, -1, 0)), None);
    assert_eq!(Month::from_value(&month_table("jan", 0, 0, -1)), None);
    assert_eq!(Month::from_value(&month_table("jan", i64::MIN, 0, 0)), None);
    assert_eq!(Month::from_value(&month_table("jan", 0, 0, i64::MAX)), None)
}

#[test]
fn month_from_value_wants_every_field_of_its_kind() {
    let full = vec![
        ("name", toml::Value::String(String::from("jan"))),
        ("income", toml::Value::Integer(1)),
        ("expenses", toml::Value::Integer(2)),
        ("investments", toml::Value::Integer(3)),
    ];
    for skip in 0..4 {
        let mut entries = full.clone();
        entries.remove(skip);
        assert_eq!(Month::from_value(&table(entries)), None);
    }
    let mut wrong = full.clone();
    wrong[0] = ("name", toml::Value::Integer(1));
    assert_eq!(Month::from_value(&table(wrong)), None);
    let mut wrong = full.clone();
    wrong[1] = ("income", toml::Value::String(String::from("1")));
    assert_eq!(Month::from_value(&table(wrong)), None);
    let mut wrong = full.clone();
    wrong[2] = ("expenses", toml::Value::Float(2.0));
    assert_eq!(Month::from_value(&table(wrong)), None);
    let mut wrong = full.clone();
    wrong[3] = ("investments", toml::Value::Boolean(true));
    assert_eq!(Month::from_value(&table(wrong)), None);
    assert_eq!(Month::from_value(&toml::Value::Integer(1)), None);
    assert_eq!(Month::from_value(&toml::Value::Array(vec![])), None)
}

#[test]
fn from_value_passes_over_other_keys() {
    let mut entries = vec![
        ("name", toml::Value::String(String::from("jan"))),
        ("income", toml::Value::Integer(1)),
        ("expenses", toml::Value::Integer(2)),
        ("investments", toml::Value::Integer(3)),
    ];
    entries.push(("note", toml::Value::String(String::from("bonus"))));
    assert_eq!(Month::from_value(&table(entries)), Some(Month::new(String::from("jan"), 1, 2, 3)))
}

#[test]
fn year_from_value_wants_id_and_months() {
    let months = toml::Value::Array(vec![month_table("jan", 1, 2, 3)]);
    let good = table(vec![("id", toml::Value::Integer(2018)), ("months", months.clone())]);
    let y = Year::from_value(&good).unwrap();
    assert_eq!(y.id(), 2018);
    assert_eq!(y.months().len(), 1);
    assert_eq!(Year::from_value(&table(vec![("id", toml::Value::Integer(2018))])), None);
    assert_eq!(Year::from_value(&table(vec![("months", months.clone())])), None);
    assert_eq!(Year::from_value(&table(vec![("id", toml::Value::Integer(65_536)), ("months", months.clone())])), None);
    assert_eq!(Year::from_value(&table(vec![("id", toml::Value::Integer(-1)), ("months", months.clone())])), None);
    assert_eq!(Year::from_value(&table(vec![("id", toml::Value::Integer(65_535)), ("months", months.clone())])).map(|y| y.id()), Some(65_535));
    assert_eq!(Year::from_value(&table(vec![("id", toml::Value::Integer(2018)), ("months", toml::Value::Integer(0))])), None)
}

#[test]
fn year_from_value_fails_on_one_bad_month() {
    let months = toml::Value::Array(vec![
        month_table("jan", 1, 2, 3),
        month_table("feb", 1, 70_000, 3),
        month_table("mar", 1, 2, 3),
    ]);
    let v = table(vec![("id", toml::Value::Integer(2018)), ("months", months)]);
    assert_eq!(Year::from_value(&v), None)
}

#[test]
fn history_from_value_wants_a_list_of_years() {
    assert_eq!(History::from_value(&table(vec![])), None);
    assert_eq!(History::from_value(&table(vec![("years", toml::Value::Integer(1))])), None);
    assert_eq!(History::from_value(&table(vec![("years", toml::Value::Array(vec![]))])), Some(History::new()));
    assert_eq!(History::from_value(&table(vec![("years", toml::Value::Array(vec![toml::Value::Integer(1)]))])), None);
    assert_eq!(History::from_value(&toml::Value::Array(vec![])), None)
}

#[test]
fn decode_reads_hand_written_text() {
    let text = "# my data\n[[years]]\nid = 2018\n\n[[years.months]]\nname = \"jan\"\nincome = 12345\nexpenses = 6789\ninvestments = 1234567\n\n[[years.months]]\ninvestments = 3\nexpenses = 2\nincome = 1\nname = 'feb'\n\n[[years]]\nmonths = []\nid = 2019\n";
    let h = History::decode(text).unwrap();
    assert_eq!(h.years().len(), 2);
    assert_eq!(h.years()[0].id(), 2018);
    assert_eq!(h.years()[0].months().len(), 2);
    assert_eq!(h.years()[0].months()[0], Month::new(String::from("jan"), 12_345, 6_789, 1_234_567));
    assert_eq!(h.years()[0].months()[1], Month::new(String::from("feb"), 1, 2, 3));
    assert_eq!(h.years()[1].id(), 2019);
    assert_eq!(h.years()[1].months().len(), 0)
}

#[test]
fn decode_reads_inline_tables() {
    let text = "years = [{ id = 2018, months = [{ name = \"jan\", income = 1, expenses = 2, investments = 3 }] }]\n";
    let h = History::decode(text).unwrap();
    assert_eq!(h.years().len(), 1);
    assert_eq!(h.years()[0].months()[0], Month::new(String::from("jan"), 1, 2, 3))
}

#[test]
fn decode_rejects_what_is_no_toml() {
    assert_eq!(History::decode("[[years"), Err(Failure::Corrupted));
    assert_eq!(History::decode("years = "), Err(Failure::Corrupted));
    assert_eq!(History::decode("id = 2018\nid = 2019\n"), Err(Failure::Corrupted));
    assert_eq!(Year::decode("id = 2018\nid = 2019\nmonths = []\n"), Err(Failure::Corrupted));
    assert_eq!(Month::decode("name = \"jan"), Err(Failure::Corrupted))
}

#[test]
fn decode_rejects_toml_of_another_shape() {
    assert_eq!(History::decode(""), Err(Failure::Corrupted));
    assert_eq!(History::decode("years = 3\n"), Err(Failure::Corrupted));
    assert_eq!(History::decode("[[years]]\nid = 2018\n"), Err(Failure::Corrupted));
    assert_eq!(History::decode("[[years]]\nid = \"2018\"\nmonths = []\n"), Err(Failure::Corrupted));
    assert_eq!(History::decode("[[years]]\nid = 2018.0\nmonths = []\n"), Err(Failure::Corrupted));
    assert_eq!(History::decode("[[years]]\nid = 70000\nmonths = []\n"), Err(Failure::Corrupted));
    assert_eq!(History::decode("[[years]]\nid = -1\nmonths = []\n"), Err(Failure::Corrupted));
    assert_eq!(
        History::decode("[[years]]\nid = 2018\n[[years.months]]\nname = \"jan\"\nincome = 1\nexpenses = 70000\ninvestments = 3\n"),
        Err(Failure::Corrupted)
    );
    assert_eq!(
        History::decode("[[years]]\nid = 2018\n[[years.months]]\nname = \"jan\"\nincome = 1\ninvestments = 3\n"),
        Err(Failure::Corrupted)
    );
    assert_eq!(Month::decode("name = 1\nincome = 1\nexpenses = 2\ninvestments = 3\n"), Err(Failure::Corrupted));
    assert_eq!(Year::decode("months = []\n"), Err(Failure::Corrupted))
}

#[test]
fn decode_rejects_a_truncated_file() {
    let text = sample_history().encode().unwrap();
    let cut = &text[..text.len() - 9];
    assert_eq!(History::decode(cut), Err(Failure::Corrupted))
}

#[test]
fn encode_prints_keys_and_values() {
    let y = Year::new(2018);
    assert_eq!(y.encode().unwrap(), "id = 2018\nmonths = []\n");
    let m = january();
    assert_eq!(
        m.encode().unwrap(),
        "expenses = 6789\nincome = 12345\ninvestments = 1234567\nname = \"january\"\n"
    );
    assert_eq!(History::new().encode().unwrap(), "years = []\n")
}

#[test]
fn encoded_text_is_read_by_the_parser_as_the_value() {
    let h = sample_history();
    let text = h.encode().unwrap();
    let parsed: toml::Value = toml::from_str(&text).unwrap();
    assert_eq!(parsed, h.to_value())
}

#[test]
fn encode_prints_a_history_in_order() {
    let mut y1 = Year::new(2018);
    y1.add_month(Month::new(String::from("jan"), 12_345, 6_789, 1_234_567));
    let mut h = History::new();
    h.add_year(y1);
    h.add_year(Year::new(2020));
    assert_eq!(
        h.encode().unwrap(),
        "[[years]]\nid = 2018\n\n[[years.months]]\nexpenses = 6789\nincome = 12345\ninvestments = 1234567\nname = \"jan\"\n\n[[years]]\nid = 2020\nmonths = []\n"
    )
}

#[test]
fn confirm_hands_on_text_that_reads_back() {
    let h = sample_history();
    let text = h.encode().unwrap();
    assert_eq!(h.confirm(text.clone()), Ok(text));
    let y = Year::new(2018);
    assert_eq!(y.confirm(String::from("months = []\nid = 2018\n")), Ok(String::from("months = []\nid = 2018\n")));
    let m = january();
    let text = String::from("name = \"january\"\nincome = 12345\nexpenses = 6789\ninvestments = 1234567\nnote = \"x\"\n");
    assert_eq!(m.confirm(text.clone()), Ok(text))
}

#[test]
fn confirm_refuses_text_that_reads_otherwise() {
    let h = sample_history();
    assert_eq!(h.confirm(String::from("years = []\n")), Err(Failure::Unwritable));
    assert_eq!(h.confirm(String::from("[[years")), Err(Failure::Unwritable));
    assert_eq!(h.confirm(String::new()), Err(Failure::Unwritable));
    let other = History::new().encode().unwrap();
    assert_eq!(h.confirm(other), Err(Failure::Unwritable));
    let y = Year::new(2018);
    assert_eq!(y.confirm(String::from("id = 2019\nmonths = []\n")), Err(Failure::Unwritable));
    assert_eq!(y.confirm(String::from("id = 2018\n")), Err(Failure::Unwritable));
    let m = january();
    assert_eq!(
        m.confirm(String::from("name = \"january\"\nincome = 12345\nexpenses = 6789\ninvestments = 1234568\n")),
        Err(Failure::Unwritable)
    );
    assert_eq!(m.confirm(String::from("name = ")), Err(Failure::Unwritable))
}

#[test]
fn names_with_unusual_characters_round_trip() {
    for name in ["", " ", "jän", "一月", "tab\there", "back\\slash", "'single'", "\u{0}", "\u{1e}", "a\rb", "[[years]]", "x = 1"] {
        let mut h = History::new();
        h.upsert_month(2018, Month::new(String::from(name), 1, 2, 3));
        let text = h.encode().unwrap();
        let back = History::decode(&text).unwrap();
        assert_eq!(back.years()[0].months()[0].name(), name);
        assert_eq!(back, h);
    }
}

#[test]
fn encode_refuses_a_name_that_the_parser_would_not_read() {
    for name in ["\u{1f}", "\u{7f}", "jan\u{7f}"] {
        let m = Month::new(String::from(name), 1, 2, 3);
        assert_eq!(m.encode(), Err(Failure::Unwritable));
        let mut y = Year::new(2018);
        y.add_month(Month::new(String::from(name), 1, 2, 3));
        assert_eq!(y.encode(), Err(Failure::Unwritable));
        let mut h = History::new();
        h.upsert_month(2018, Month::new(String::from(name), 1, 2, 3));
        assert_eq!(h.encode(), Err(Failure::Unwritable));
        assert_eq!(History::from_value(&h.to_value()), Some(h));
    }
}
