use huttripper::model::avi::{AviReport, ZoneProperties};
use huttripper::model::datetime::{Date, DateTime, ParseError};
use huttripper::model::hut::{links_of_thumbnail, HutsFilterResult};
use huttripper::model::object::S3PathAttributes;
use huttripper::model::row::{copy_texts, Cell, Column, MappingError, Row};
use huttripper::model::search::{
    ArticleSearchRepresentation, HutSearchRepresentation, TripReportSearchRepresentation,
};
use huttripper::model::tripreport::TripReport;

fn text(s: &str) -> Cell {
    Cell::Text(s.to_string())
}

fn texts(list: &[&str]) -> Cell {
    Cell::TextArray(list.iter().map(|s| s.to_string()).collect())
}

fn row(columns: Vec<(&str, Cell)>) -> Row {
    Row {
        columns: columns
            .into_iter()
            .map(|(name, value)| Column { name: name.to_string(), value })
            .collect(),
    }
}

fn without(columns: Vec<(&'static str, Cell)>, name: &str) -> Row {
    row(columns.into_iter().filter(|(n, _)| *n != name).collect())
}

fn with(columns: Vec<(&'static str, Cell)>, name: &'static str, value: Cell) -> Row {
    let mut columns = columns;
    columns.push((name, value));
    row(columns)
}

fn not_found(name: &str) -> MappingError {
    MappingError::ColumnNotFound(name.to_string())
}

fn misfit(name: &str) -> MappingError {
    MappingError::ColumnDecode(name.to_string())
}

fn at(year: i32, month: u32, day: u32, hour: u32, minute: u32, second: u32) -> DateTime {
    DateTime { date: Date { year, month, day }, hour, minute, second, nanosecond: 0 }
}

fn hut_search_columns() -> Vec<(&'static str, Cell)> {
    vec![
        ("name", text("Uncle Bud's")),
        ("sanitizedname", text("uncle-buds")),
        ("system", text("10th Mountain")),
        ("state", text("Colorado")),
        ("amenities", texts(&["wifi", "stove"])),
    ]
}

#[test]
fn hut_search_joins_the_amenities_with_one_space() {
    let hut = HutSearchRepresentation::map_from(row(hut_search_columns())).unwrap();
    assert_eq!(
        hut,
        HutSearchRepresentation {
            name: "Uncle Bud's".to_string(),
            sanitized_name: "uncle-buds".to_string(),
            system: "10th Mountain".to_string(),
            state: "Colorado".to_string(),
            amenities: "wifi stove".to_string(),
        }
    );
}

#[test]
fn hut_search_keeps_the_order_of_the_amenities() {
    let hut = HutSearchRepresentation::map_from(with(
        hut_search_columns(),
        "amenities",
        texts(&["stove", "", "wifi", "sauna"]),
    ))
    .unwrap();
    assert_eq!(hut.amenities, "stove  wifi sauna");
    let bare =
        HutSearchRepresentation::map_from(with(hut_search_columns(), "amenities", texts(&[])))
            .unwrap();
    assert_eq!(bare.amenities, "");
    let single = HutSearchRepresentation::map_from(with(
        hut_search_columns(),
        "amenities",
        texts(&["wifi"]),
    ))
    .unwrap();
    assert_eq!(single.amenities, "wifi");
}

#[test]
fn hut_search_fails_on_a_missing_or_misfit_column() {
    assert_eq!(
        HutSearchRepresentation::map_from(without(hut_search_columns(), "amenities")),
        Err(not_found("amenities"))
    );
    assert_eq!(
        HutSearchRepresentation::map_from(without(hut_search_columns(), "state")),
        Err(not_found("state"))
    );
    assert_eq!(
        HutSearchRepresentation::map_from(with(hut_search_columns(), "amenities", Cell::Null)),
        Err(misfit("amenities"))
    );
    assert_eq!(
        HutSearchRepresentation::map_from(with(hut_search_columns(), "system", Cell::Int(3))),
        Err(misfit("system"))
    );
}

#[test]
fn hut_search_reports_the_first_column_that_fails() {
    let columns = vec![("state", Cell::Int(1)), ("sanitizedname", text("x"))];
    assert_eq!(HutSearchRepresentation::map_from(row(columns)), Err(not_found("amenities")));
    let columns = vec![("amenities", texts(&[])), ("state", Cell::Int(1))];
    assert_eq!(HutSearchRepresentation::map_from(row(columns)), Err(not_found("name")));
}

#[test]
fn the_last_column_of_a_name_counts() {
    let found = with(hut_search_columns(), "name", text("Later"));
    assert_eq!(found.find("name"), Some(&text("Later")));
    assert_eq!(HutSearchRepresentation::map_from(found).unwrap().name, "Later");
    assert_eq!(row(vec![]).find("name"), None);
}

#[test]
fn row_getters_read_each_kind_of_value() {
    let day = Date { year: 2024, month: 2, day: 29 };
    let row = row(vec![
        ("t", text("a")),
        ("n", Cell::Null),
        ("i", Cell::Int(-4)),
        ("b", Cell::Bool(true)),
        ("d", Cell::Double(1.5f64.to_bits())),
        ("a", texts(&["x", "y"])),
        ("s", Cell::Timestamp(at(2023, 1, 5, 10, 0, 0))),
        ("y", Cell::Date(day)),
        ("o", Cell::Other("INT8".to_string())),
    ]);
    assert_eq!(row.try_get_text("t"), Ok("a".to_string()));
    assert_eq!(row.try_get_text("n"), Err(misfit("n")));
    assert_eq!(row.try_get_text("o"), Err(misfit("o")));
    assert_eq!(row.try_get_text("q"), Err(not_found("q")));
    assert_eq!(row.try_get_optional_text("t"), Ok(Some("a".to_string())));
    assert_eq!(row.try_get_optional_text("n"), Ok(None));
    assert_eq!(row.try_get_optional_text("i"), Err(misfit("i")));
    assert_eq!(row.try_get_optional_text("q"), Err(not_found("q")));
    assert_eq!(row.try_get_int("i"), Ok(-4));
    assert_eq!(row.try_get_int("n"), Err(misfit("n")));
    assert_eq!(row.try_get_int("q"), Err(not_found("q")));
    assert_eq!(row.try_get_bool("b"), Ok(true));
    assert_eq!(row.try_get_bool("i"), Err(misfit("i")));
    assert_eq!(row.try_get_bool("q"), Err(not_found("q")));
    assert_eq!(row.try_get_double("d").map(f64::from_bits), Ok(1.5));
    assert_eq!(row.try_get_double("i"), Err(misfit("i")));
    assert_eq!(row.try_get_double("q"), Err(not_found("q")));
    assert_eq!(row.try_get_text_array("a"), Ok(vec!["x".to_string(), "y".to_string()]));
    assert_eq!(row.try_get_text_array("t"), Err(misfit("t")));
    assert_eq!(row.try_get_text_array("q"), Err(not_found("q")));
    assert_eq!(row.try_get_optional_text_array("a"), Ok(Some(vec!["x".to_string(), "y".to_string()])));
    assert_eq!(row.try_get_optional_text_array("n"), Ok(None));
    assert_eq!(row.try_get_optional_text_array("t"), Err(misfit("t")));
    assert_eq!(row.try_get_optional_text_array("q"), Err(not_found("q")));
    assert_eq!(row.try_get_optional_timestamp("s"), Ok(Some(at(2023, 1, 5, 10, 0, 0))));
    assert_eq!(row.try_get_optional_timestamp("n"), Ok(None));
    assert_eq!(row.try_get_optional_timestamp("y"), Err(misfit("y")));
    assert_eq!(row.try_get_optional_timestamp("q"), Err(not_found("q")));
    assert_eq!(row.try_get_date("y"), Ok(day));
    assert_eq!(row.try_get_date("s"), Err(misfit("s")));
    assert_eq!(row.try_get_date("q"), Err(not_found("q")));
}

#[test]
fn copy_texts_copies_in_order() {
    let list = vec!["b".to_string(), "a".to_string()];
    assert_eq!(copy_texts(&list), list);
    assert_eq!(copy_texts(&vec![]), Vec::<String>::new());
}

#[test]
fn trip_report_search_maps_its_columns() {
    let columns = vec![
        ("id", text("r1")),
        ("hutconditions", text("clean")),
        ("weatherconditions", text("snow")),
        ("ridingconditions", text("powder")),
    ];
    assert_eq!(
        TripReportSearchRepresentation::map_from(row(columns.clone())),
        Ok(TripReportSearchRepresentation {
            id: "r1".to_string(),
            hut_conditions: "clean".to_string(),
            weather_conditions: "snow".to_string(),
            riding_conditions: "powder".to_string(),
        })
    );
    assert_eq!(
        TripReportSearchRepresentation::map_from(with(columns.clone(), "weatherconditions", Cell::Null)),
        Err(misfit("weatherconditions"))
    );
    assert_eq!(
        TripReportSearchRepresentation::map_from(without(columns, "ridingconditions")),
        Err(not_found("ridingconditions"))
    );
}

#[test]
fn article_search_maps_its_columns() {
    let columns = vec![
        ("description", text("How to pack")),
        ("title", text("Packing")),
        ("id", text("a1")),
    ];
    assert_eq!(
        ArticleSearchRepresentation::map_from(row(columns.clone())),
        Ok(ArticleSearchRepresentation {
            id: "a1".to_string(),
            title: "Packing".to_string(),
            description: "How to pack".to_string(),
        })
    );
    assert_eq!(
        ArticleSearchRepresentation::map_from(without(columns, "title")),
        Err(not_found("title"))
    );
}

#[test]
fn path_attributes_map_their_columns() {
    let columns = vec![
        ("sanitizedstate", text("colorado")),
        ("sanitizedsystem", text("10th-mountain")),
        ("sanitizedname", text("uncle-buds")),
    ];
    assert_eq!(
        S3PathAttributes::map_from(row(columns.clone())),
        Ok(S3PathAttributes {
            sanitized_state: "colorado".to_string(),
            sanitized_system: "10th-mountain".to_string(),
            sanitized_name: "uncle-buds".to_string(),
        })
    );
    assert_eq!(
        S3PathAttributes::map_from(with(columns, "sanitizedsystem", Cell::Bool(false))),
        Err(misfit("sanitizedsystem"))
    );
    assert_eq!(S3PathAttributes::map_from(row(vec![])), Err(not_found("sanitizedstate")));
}

fn hut_columns() -> Vec<(&'static str, Cell)> {
    vec![
        ("name", text("Uncle Bud's")),
        ("sanitizedname", text("uncle-buds")),
        ("state", text("Colorado")),
        ("sanitizedstate", text("colorado")),
        ("system", text("10th Mountain")),
        ("maxcapacity", Cell::Int(16)),
        ("longitude", Cell::Double((-106.36f64).to_bits())),
        ("latitude", Cell::Double(39.32f64.to_bits())),
        ("thumbnailimage", text("https://img.example/t.jpg")),
    ]
}

#[test]
fn hut_maps_its_columns() {
    let hut = HutsFilterResult::map_from(row(hut_columns())).unwrap();
    assert_eq!(hut.name, "Uncle Bud's");
    assert_eq!(hut.sanitized_name, "uncle-buds");
    assert_eq!(hut.state, "Colorado");
    assert_eq!(hut.sanitized_state, "colorado");
    assert_eq!(hut.system, "10th Mountain");
    assert_eq!(hut.max_capacity, 16);
    let point: Vec<f64> = hut.point.iter().map(|bits| f64::from_bits(*bits)).collect();
    assert_eq!(point, vec![-106.36, 39.32]);
    assert_eq!(hut.image_links, vec!["https://img.example/t.jpg"]);
}

#[test]
fn hut_without_a_thumbnail_has_no_image_links() {
    let hut = HutsFilterResult::map_from(with(hut_columns(), "thumbnailimage", Cell::Null)).unwrap();
    assert_eq!(hut.image_links, Vec::<String>::new());
    let hut = HutsFilterResult::map_from(with(hut_columns(), "thumbnailimage", text(""))).unwrap();
    assert_eq!(hut.image_links, Vec::<String>::new());
    assert_eq!(links_of_thumbnail(None), Vec::<String>::new());
    assert_eq!(links_of_thumbnail(Some("".to_string())), Vec::<String>::new());
    assert_eq!(links_of_thumbnail(Some("t".to_string())), vec!["t"]);
}

#[test]
fn hut_fails_on_a_missing_or_misfit_column() {
    assert_eq!(
        HutsFilterResult::map_from(without(hut_columns(), "thumbnailimage")),
        Err(not_found("thumbnailimage"))
    );
    assert_eq!(
        HutsFilterResult::map_from(with(hut_columns(), "maxcapacity", text("16"))),
        Err(misfit("maxcapacity"))
    );
    assert_eq!(
        HutsFilterResult::map_from(with(hut_columns(), "latitude", Cell::Int(39))),
        Err(misfit("latitude"))
    );
    assert_eq!(
        HutsFilterResult::map_from(without(hut_columns(), "longitude")),
        Err(not_found("longitude"))
    );
}

fn trip_report_columns() -> Vec<(&'static str, Cell)> {
    vec![
        ("id", text("r1")),
        ("firstname", text("Ada")),
        ("lastname", text("Lovelace")),
        ("tripstartdate", Cell::Date(Date { year: 2023, month: 1, day: 5 })),
        ("tripenddate", Cell::Date(Date { year: 2023, month: 1, day: 7 })),
        ("weatherconditions", Cell::Null),
        ("hutconditions", text("clean")),
        ("ridingconditions", text("powder")),
        ("approved", Cell::Bool(true)),
        ("images", texts(&["a.jpg", "b.jpg"])),
    ]
}

#[test]
fn trip_report_maps_its_columns() {
    assert_eq!(
        TripReport::map_from(row(trip_report_columns())),
        Ok(TripReport {
            id: "r1".to_string(),
            first_name: "Ada".to_string(),
            last_name: "Lovelace".to_string(),
            trip_start_date: Date { year: 2023, month: 1, day: 5 },
            trip_end_date: Date { year: 2023, month: 1, day: 7 },
            weather_conditions: None,
            hut_conditions: "clean".to_string(),
            riding_conditions: Some("powder".to_string()),
            approved: true,
            image_links: vec!["a.jpg".to_string(), "b.jpg".to_string()],
        })
    );
}

#[test]
fn trip_report_without_images_has_no_image_links() {
    let report = TripReport::map_from(with(trip_report_columns(), "images", Cell::Null)).unwrap();
    assert_eq!(report.image_links, Vec::<String>::new());
}

#[test]
fn trip_report_fails_on_a_missing_or_misfit_column() {
    assert_eq!(
        TripReport::map_from(without(trip_report_columns(), "images")),
        Err(not_found("images"))
    );
    assert_eq!(
        TripReport::map_from(with(
            trip_report_columns(),
            "tripstartdate",
            Cell::Timestamp(at(2023, 1, 5, 0, 0, 0))
        )),
        Err(misfit("tripstartdate"))
    );
    assert_eq!(
        TripReport::map_from(with(trip_report_columns(), "hutconditions", Cell::Null)),
        Err(misfit("hutconditions"))
    );
    assert_eq!(
        TripReport::map_from(with(trip_report_columns(), "approved", Cell::Int(1))),
        Err(misfit("approved"))
    );
}

fn zone() -> ZoneProperties {
    ZoneProperties {
        name: "Vail & Summit County".to_string(),
        center: "CAIC".to_string(),
        center_link: "https://avalanche.state.co.us".to_string(),
        off_season: false,
        travel_advice: "Watch for wind slabs.".to_string(),
        danger: "considerable".to_string(),
        danger_level: 3,
        link: "https://avalanche.state.co.us/vail".to_string(),
        start_date: Some("2023-01-05T10:00:00".to_string()),
        end_date: None,
    }
}

#[test]
fn zone_properties_with_a_well_formed_date_parse() {
    let report = AviReport::from_zone_properties(&zone()).unwrap();
    assert_eq!(
        report,
        AviReport {
            zone_name: "Vail & Summit County".to_string(),
            avi_center: "CAIC".to_string(),
            avi_center_link: "https://avalanche.state.co.us".to_string(),
            off_season: false,
            travel_advice: "Watch for wind slabs.".to_string(),
            danger: "considerable".to_string(),
            danger_level: 3,
            zone_link: "https://avalanche.state.co.us/vail".to_string(),
            start_time: Some(at(2023, 1, 5, 10, 0, 0)),
            end_time: None,
        }
    );
}

#[test]
fn zone_properties_with_a_date_without_time_fail() {
    let mut zps = zone();
    zps.start_date = Some("2023-01-05".to_string());
    assert_eq!(
        AviReport::from_zone_properties(&zps),
        Err(ParseError { message: "premature end of input".to_string() })
    );
}

#[test]
fn zone_properties_parse_both_dates() {
    let mut zps = zone();
    zps.end_date = Some("2023-12-31T23:59:58".to_string());
    let report = AviReport::from_zone_properties(&zps).unwrap();
    assert_eq!(report.start_time, Some(at(2023, 1, 5, 10, 0, 0)));
    assert_eq!(report.end_time, Some(at(2023, 12, 31, 23, 59, 58)));
}

#[test]
fn zone_properties_without_dates_have_no_times() {
    let mut zps = zone();
    zps.start_date = None;
    let report = AviReport::from_zone_properties(&zps).unwrap();
    assert_eq!(report.start_time, None);
    assert_eq!(report.end_time, None);
}

#[test]
fn zone_properties_fail_on_a_refused_end_date() {
    let mut zps = zone();
    zps.end_date = Some("2023-02-30T00:00:00".to_string());
    assert_eq!(
        AviReport::from_zone_properties(&zps),
        Err(ParseError { message: "input is out of range".to_string() })
    );
    zps.end_date = Some("2023-01-05 10:00:00".to_string());
    assert_eq!(
        AviReport::from_zone_properties(&zps),
        Err(ParseError { message: "input contains invalid characters".to_string() })
    );
}

#[test]
fn zone_properties_report_the_start_date_before_the_end_date() {
    let mut zps = zone();
    zps.start_date = Some("2023-01-05".to_string());
    zps.end_date = Some("yesterday".to_string());
    assert_eq!(
        AviReport::from_zone_properties(&zps),
        Err(ParseError { message: "premature end of input".to_string() })
    );
}

#[test]
fn from_parsed_dates_takes_what_the_parser_made() {
    let zps = zone();
    let start = at(2020, 2, 29, 1, 2, 3);
    let report = AviReport::from_parsed_dates(&zps, Some(Ok(start)), None).unwrap();
    assert_eq!(report.start_time, Some(start));
    assert_eq!(report.end_time, None);
    assert_eq!(report.zone_name, zps.name);
    assert_eq!(
        AviReport::from_parsed_dates(&zps, Some(Err("first".to_string())), Some(Err("second".to_string()))),
        Err(ParseError { message: "first".to_string() })
    );
    assert_eq!(
        AviReport::from_parsed_dates(&zps, None, Some(Err("second".to_string()))),
        Err(ParseError { message: "second".to_string() })
    );
}

fn avi_columns() -> Vec<(&'static str, Cell)> {
    vec![
        ("zonename", text("Vail")),
        ("avicenter", text("CAIC")),
        ("avicenterlink", text("https://caic.example")),
        ("offseason", Cell::Bool(true)),
        ("traveladvice", text("none")),
        ("danger", text("low")),
        ("dangerlevel", Cell::Int(1)),
        ("zonelink", text("https://caic.example/vail")),
        ("starttime", Cell::Timestamp(at(2023, 1, 5, 10, 0, 0))),
        ("endtime", Cell::Null),
    ]
}

#[test]
fn avi_report_maps_its_columns() {
    assert_eq!(
        AviReport::map_from(row(avi_columns())),
        Ok(AviReport {
            zone_name: "Vail".to_string(),
            avi_center: "CAIC".to_string(),
            avi_center_link: "https://caic.example".to_string(),
            off_season: true,
            travel_advice: "none".to_string(),
            danger: "low".to_string(),
            danger_level: 1,
            zone_link: "https://caic.example/vail".to_string(),
            start_time: Some(at(2023, 1, 5, 10, 0, 0)),
            end_time: None,
        })
    );
}

#[test]
fn avi_report_fails_on_a_missing_or_misfit_column() {
    assert_eq!(AviReport::map_from(without(avi_columns(), "endtime")), Err(not_found("endtime")));
    assert_eq!(AviReport::map_from(without(avi_columns(), "zonename")), Err(not_found("zonename")));
    assert_eq!(
        AviReport::map_from(with(avi_columns(), "dangerlevel", Cell::Null)),
        Err(misfit("dangerlevel"))
    );
    assert_eq!(
        AviReport::map_from(with(avi_columns(), "starttime", text("2023-01-05T10:00:00"))),
        Err(misfit("starttime"))
    );
}

#[test]
fn mapping_errors_say_what_went_wrong_with_which_column() {
    assert_eq!(not_found("state").message(), "no column found for name: state");
    assert_eq!(misfit("state").message(), "error occurred while decoding column state");
}
