use crate::model::datetime::{date_time_parse, parse_date_time, DateTime, ParseError};
use crate::model::row::{
    bool_at, int_at, optional_timestamp_at, text_at, ColumnView, MappingError, MappingErrorView,
    Row,
};
use vstd::prelude::*;
use vstd::string::*;

verus! {

/// The advisory of an avalanche center for one zone.
#[derive(Clone, Debug, PartialEq)]
pub struct AviReport {
    pub zone_name: String,
    pub avi_center: String,
    pub avi_center_link: String,
    pub off_season: bool,
    pub travel_advice: String,
    pub danger: String,
    pub danger_level: i32,
    pub zone_link: String,
    pub start_time: Option<DateTime>,
    pub end_time: Option<DateTime>,
}

/// The mathematical value of [`AviReport`].
pub ghost struct AviReportView {
    pub zone_name: Seq<char>,
    pub avi_center: Seq<char>,
    pub avi_center_link: Seq<char>,
    pub off_season: bool,
    pub travel_advice: Seq<char>,
    pub danger: Seq<char>,
    pub danger_level: i32,
    pub zone_link: Seq<char>,
    pub start_time: Option<DateTime>,
    pub end_time: Option<DateTime>,
}

impl View for AviReport {
    type V = AviReportView;

    open spec fn view(&self) -> AviReportView {
        AviReportView {
            zone_name: self.zone_name@,
            avi_center: self.avi_center@,
            avi_center_link: self.avi_center_link@,
            off_season: self.off_season,
            travel_advice: self.travel_advice@,
            danger: self.danger@,
            danger_level: self.danger_level,
            zone_link: self.zone_link@,
            start_time: self.start_time,
            end_time: self.end_time,
        }
    }
}

/// The properties of a zone as the avalanche center publishes them.
#[derive(Debug, PartialEq)]
pub struct ZoneProperties {
    pub name: String,
    pub center: String,
    pub center_link: String,
    pub off_season: bool,
    pub travel_advice: String,
    pub danger: String,
    pub danger_level: i32,
    pub link: String,
    pub start_date: Option<String>,
    pub end_date: Option<String>,
}

/// The mathematical value of [`ZoneProperties`].
pub ghost struct ZonePropertiesView {
    pub name: Seq<char>,
    pub center: Seq<char>,
    pub center_link: Seq<char>,
    pub off_season: bool,
    pub travel_advice: Seq<char>,
    pub danger: Seq<char>,
    pub danger_level: i32,
    pub link: Seq<char>,
    pub start_date: Option<Seq<char>>,
    pub end_date: Option<Seq<char>>,
}

impl View for ZoneProperties {
    type V = ZonePropertiesView;

    open spec fn view(&self) -> ZonePropertiesView {
        ZonePropertiesView {
            name: self.name@,
            center: self.center@,
            center_link: self.center_link@,
            off_season: self.off_season,
            travel_advice: self.travel_advice@,
            danger: self.danger@,
            danger_level: self.danger_level,
            link: self.link@,
            start_date: self.start_date.deep_view(),
            end_date: self.end_date.deep_view(),
        }
    }
}

/// The one form in which a zone's dates are written: year, month and day,
/// the letter T, then hour, minute and second.
pub open spec fn date_format() -> Seq<char> {
    "%Y-%m-%dT%H:%M:%S"@
}

/// What the date parser makes of a date that may be absent.
pub open spec fn parsed_date(text: Option<Seq<char>>) -> Option<Result<DateTime, Seq<char>>> {
    match text {
        Some(text) => Some(date_time_parse(text, date_format())),
        None => None,
    }
}

/// The report that comes of a zone's properties and of what the date parser
/// made of its two dates. An absent date stays absent. A refused start date is
/// the error; failing that, a refused end date is.
pub open spec fn report_of(
    zps: ZonePropertiesView,
    start: Option<Result<DateTime, Seq<char>>>,
    end: Option<Result<DateTime, Seq<char>>>,
) -> Result<AviReportView, Seq<char>> {
    match start {
        Some(Err(message)) => Err(message),
        _ => match end {
            Some(Err(message)) => Err(message),
            _ => Ok(
                AviReportView {
                    zone_name: zps.name,
                    avi_center: zps.center,
                    avi_center_link: zps.center_link,
                    off_season: zps.off_season,
                    travel_advice: zps.travel_advice,
                    danger: zps.danger,
                    danger_level: zps.danger_level,
                    zone_link: zps.link,
                    start_time: match start {
                        Some(Ok(at)) => Some(at),
                        _ => None,
                    },
                    end_time: match end {
                        Some(Ok(at)) => Some(at),
                        _ => None,
                    },
                },
            ),
        },
    }
}

/// The view of a parsed date that may be absent.
pub open spec fn parsed_view(parsed: Option<Result<DateTime, String>>) -> Option<
    Result<DateTime, Seq<char>>,
> {
    match parsed {
        Some(Ok(at)) => Some(Ok(at)),
        Some(Err(message)) => Some(Err(message@)),
        None => None,
    }
}

/// The report in a row. The columns are read in the order `zonename`,
/// `avicenter`, `avicenterlink`, `offseason`, `traveladvice`, `danger`,
/// `dangerlevel`, `zonelink`, `starttime`, `endtime`, and the first that is
/// missing or misfit is the error.
pub open spec fn report_in(row: Seq<ColumnView>) -> Result<AviReportView, MappingErrorView> {
    match text_at(row, "zonename"@) {
        Err(e) => Err(e),
        Ok(zone_name) => match text_at(row, "avicenter"@) {
            Err(e) => Err(e),
            Ok(avi_center) => match text_at(row, "avicenterlink"@) {
                Err(e) => Err(e),
                Ok(avi_center_link) => match bool_at(row, "offseason"@) {
                    Err(e) => Err(e),
                    Ok(off_season) => match text_at(row, "traveladvice"@) {
                        Err(e) => Err(e),
                        Ok(travel_advice) => match text_at(row, "danger"@) {
                            Err(e) => Err(e),
                            Ok(danger) => match int_at(row, "dangerlevel"@) {
                                Err(e) => Err(e),
                                Ok(danger_level) => match text_at(row, "zonelink"@) {
                                    Err(e) => Err(e),
                                    Ok(zone_link) => match optional_timestamp_at(
                                        row,
                                        "starttime"@,
                                    ) {
                                        Err(e) => Err(e),
                                        Ok(start_time) => match optional_timestamp_at(
                                            row,
                                            "endtime"@,
                                        ) {
                                            Err(e) => Err(e),
                                            Ok(end_time) => Ok(
                                                AviReportView {
                                                    zone_name,
                                                    avi_center,
                                                    avi_center_link,
                                                    off_season,
                                                    travel_advice,
                                                    danger,
                                                    danger_level,
                                                    zone_link,
                                                    start_time,
                                                    end_time,
                                                },
                                            ),
                                        },
                                    },
                                },
                            },
                        },
                    },
                },
            },
        },
    }
}

fn parse_optional_date(text: &Option<String>) -> (r: Option<Result<DateTime, String>>)
    ensures
        parsed_view(r) == parsed_date(text.deep_view()),
{
    match text {
        Some(text) => Some(parse_date_time(text.as_str(), "%Y-%m-%dT%H:%M:%S")),
        None => None,
    }
}

impl AviReport {
    /// Makes the report from a zone's properties and from what the date
    /// parser made of its two dates.
    pub fn from_parsed_dates(
        zps: &ZoneProperties,
        start: Option<Result<DateTime, String>>,
        end: Option<Result<DateTime, String>>,
    ) -> (r: Result<Self, ParseError>)
        ensures
            match r {
                Ok(report) => report_of(zps@, parsed_view(start), parsed_view(end)) == Ok::<
                    AviReportView,
                    Seq<char>,
                >(report@),
                Err(error) => report_of(zps@, parsed_view(start), parsed_view(end)) == Err::<
                    AviReportView,
                    Seq<char>,
                >(error@),
            },
    {
        let start_time = match start {
            Some(Ok(at)) => Some(at),
            Some(Err(message)) => {
                return Err(ParseError { message });
            },
            None => None,
        };
        let end_time = match end {
            Some(Ok(at)) => Some(at),
            Some(Err(message)) => {
                return Err(ParseError { message });
            },
            None => None,
        };
        Ok(
            AviReport {
                zone_name: zps.name.clone(),
                avi_center: zps.center.clone(),
                avi_center_link: zps.center_link.clone(),
                off_season: zps.off_season,
                travel_advice: zps.travel_advice.clone(),
                danger: zps.danger.clone(),
                danger_level: zps.danger_level,
                zone_link: zps.link.clone(),
                start_time,
                end_time,
            },
        )
    }

    /// Makes the report from a zone's properties. Each date that is there must
    /// be written in the form of [`date_format`]; one that the date parser
    /// refuses is the error, the start date before the end date.
    pub fn from_zone_properties(zps: &ZoneProperties) -> (r: Result<Self, ParseError>)
        ensures
            match r {
                Ok(report) => report_of(
                    zps@,
                    parsed_date(zps@.start_date),
                    parsed_date(zps@.end_date),
                ) == Ok::<AviReportView, Seq<char>>(report@),
                Err(error) => report_of(
                    zps@,
                    parsed_date(zps@.start_date),
                    parsed_date(zps@.end_date),
                ) == Err::<AviReportView, Seq<char>>(error@),
            },
    {
        let start = parse_optional_date(&zps.start_date);
        let end = parse_optional_date(&zps.end_date);
        AviReport::from_parsed_dates(zps, start, end)
    }

    /// Makes the report from a row.
    pub fn map_from(row: Row) -> (r: Result<Self, MappingError>)
        ensures
            match r {
                Ok(report) => report_in(row@) == Ok::<AviReportView, MappingErrorView>(report@),
                Err(error) => report_in(row@) == Err::<AviReportView, MappingErrorView>(error@),
            },
    {
        let zone_name = row.try_get_text("zonename")?;
        let avi_center = row.try_get_text("avicenter")?;
        let avi_center_link = row.try_get_text("avicenterlink")?;
        let off_season = row.try_get_bool("offseason")?;
        let travel_advice = row.try_get_text("traveladvice")?;
        let danger = row.try_get_text("danger")?;
        let danger_level = row.try_get_int("dangerlevel")?;
        let zone_link = row.try_get_text("zonelink")?;
        let start_time = row.try_get_optional_timestamp("starttime")?;
        let end_time = row.try_get_optional_timestamp("endtime")?;
        Ok(
            AviReport {
                zone_name,
                avi_center,
                avi_center_link,
                off_season,
                travel_advice,
                danger,
                danger_level,
                zone_link,
                start_time,
                end_time,
            },
        )
    }
}

} // verus!
