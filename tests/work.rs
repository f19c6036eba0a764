use crossref::work::{CalendarDate, Date, DateField, DateParts, PartialDate};

fn ymd(year: u32, month: Option<u32>, day: Option<u32>) -> CalendarDate {
    CalendarDate { year, month, day }
}

fn y(year: u32) -> CalendarDate {
    ymd(year, None, None)
}

#[test]
fn date_parts_serde() {
    let demo = DateParts(vec![vec![Some(2017), Some(10), Some(11)]]);
    let expected = r##"{"date_parts":[[2017,10,11]]}"##;
    let mut object = serde_json::Map::new();
    object.insert("date_parts".to_string(), serde_json::to_value(&demo.0).unwrap());
    assert_eq!(expected, &serde_json::to_string(&serde_json::Value::Object(object)).unwrap());
    let parsed: serde_json::Value = serde_json::from_str(expected).unwrap();
    let inner: Vec<Vec<Option<u32>>> =
        serde_json::from_value(parsed.get("date_parts").unwrap().clone()).unwrap();
    assert_eq!(demo, DateParts(inner));
}

#[test]
fn single_full_date() {
    let d = DateParts(vec![vec![Some(2017), Some(10), Some(11)]]);
    assert_eq!(d.as_date(), Some(DateField::Single(ymd(2017, Some(10), Some(11)))));
}

#[test]
fn single_year_and_month() {
    let d = DateParts(vec![vec![Some(2004), Some(1)]]);
    assert_eq!(d.as_date(), Some(DateField::Single(ymd(2004, Some(1), None))));
}

#[test]
fn range_of_years() {
    let d = DateParts(vec![vec![Some(2020)], vec![Some(2021)]]);
    assert_eq!(d.as_date(), Some(DateField::Range { from: y(2020), to: y(2021) }));
}

#[test]
fn range_kept_out_of_order() {
    let d = DateParts(vec![vec![Some(2021)], vec![Some(2020)]]);
    assert_eq!(d.as_date(), Some(DateField::Range { from: y(2021), to: y(2020) }));
}

#[test]
fn multi_years() {
    let d = DateParts(vec![vec![Some(2019)], vec![Some(2020)], vec![Some(2021)]]);
    assert_eq!(d.as_date(), Some(DateField::Multi(vec![y(2019), y(2020), y(2021)])));
}

#[test]
fn missing_year_is_no_date() {
    assert_eq!(DateParts(vec![vec![None]]).as_date(), None);
    assert_eq!(DateParts(vec![]).as_date(), None);
    assert_eq!(DateParts(vec![vec![]]).as_date(), None);
    assert_eq!(DateParts(vec![vec![Some(2020), None]]).as_date(), None);
    assert_eq!(DateParts(vec![vec![Some(1), Some(2), Some(3), Some(4)]]).as_date(), None);
    assert_eq!(DateParts(vec![vec![Some(2020)], vec![None]]).as_date(), None);
}

#[test]
fn multi_is_all_or_nothing() {
    let d = DateParts(vec![vec![Some(2019)], vec![None], vec![Some(2021)]]);
    assert_eq!(d.as_date(), None);
}

#[test]
fn date_and_partial_date_fields() {
    let issued = PartialDate { date_parts: DateParts(vec![vec![Some(2004)]]) };
    assert_eq!(issued.as_date_field(), Some(DateField::Single(y(2004))));
    let created = Date {
        date_parts: DateParts(vec![vec![Some(2004), Some(1), Some(21)]]),
        timestamp: 1074695479000,
        date_time: "2004-01-21T14:31:19Z".to_string(),
    };
    assert_eq!(created.as_date_field(), Some(DateField::Single(ymd(2004, Some(1), Some(21)))));
}

#[test]
fn calendar_date_text() {
    assert_eq!(ymd(2017, Some(10), Some(11)).to_text(), "2017-10-11");
    assert_eq!(ymd(2004, Some(1), Some(2)).to_text(), "2004-01-02");
    assert_eq!(ymd(2004, Some(3), None).to_text(), "2004-03");
    assert_eq!(y(2020).to_text(), "2020");
    assert_eq!(y(987).to_text(), "0987");
    assert_eq!(y(12345).to_text(), "12345");
    assert_eq!(ymd(1999, None, Some(5)).to_text(), "1999");
}
