use crate::model::datetime::Date;
use crate::model::row::{
    bool_at, date_at, optional_text_array_at, optional_text_at, text_at, ColumnView, MappingError,
    MappingErrorView, Row,
};
use vstd::prelude::*;

verus! {

/// A visitor's report of a trip to a hut.
#[derive(Clone, Debug, PartialEq)]
pub struct TripReport {
    pub id: String,
    pub first_name: String,
    pub last_name: String,
    pub trip_start_date: Date,
    pub trip_end_date: Date,
    pub weather_conditions: Option<String>,
    pub hut_conditions: String,
    pub riding_conditions: Option<String>,
    pub approved: bool,
    pub image_links: Vec<String>,
}

/// The mathematical value of [`TripReport`].
pub ghost struct TripReportView {
    pub id: Seq<char>,
    pub first_name: Seq<char>,
    pub last_name: Seq<char>,
    pub trip_start_date: Date,
    pub trip_end_date: Date,
    pub weather_conditions: Option<Seq<char>>,
    pub hut_conditions: Seq<char>,
    pub riding_conditions: Option<Seq<char>>,
    pub approved: bool,
    pub image_links: Seq<Seq<char>>,
}

impl View for TripReport {
    type V = TripReportView;

    open spec fn view(&self) -> TripReportView {
        TripReportView {
            id: self.id@,
            first_name: self.first_name@,
            last_name: self.last_name@,
            trip_start_date: self.trip_start_date,
            trip_end_date: self.trip_end_date,
            weather_conditions: self.weather_conditions.deep_view(),
            hut_conditions: self.hut_conditions@,
            riding_conditions: self.riding_conditions.deep_view(),
            approved: self.approved,
            image_links: self.image_links.deep_view(),
        }
    }
}

/// The links of a report's images; none where the report has no list of them.
pub open spec fn links_or_none(images: Option<Seq<Seq<char>>>) -> Seq<Seq<char>> {
    match images {
        Some(links) => links,
        None => Seq::empty(),
    }
}

/// The trip report in a row. The columns are read in the order `images`,
/// `id`, `firstname`, `lastname`, `tripstartdate`, `tripenddate`,
/// `weatherconditions`, `hutconditions`, `ridingconditions`, `approved`, and
/// the first that is missing or misfit is the error.
pub open spec fn trip_report_of(row: Seq<ColumnView>) -> Result<TripReportView, MappingErrorView> {
    match optional_text_array_at(row, "images"@) {
        Err(e) => Err(e),
        Ok(images) => match text_at(row, "id"@) {
            Err(e) => Err(e),
            Ok(id) => match text_at(row, "firstname"@) {
                Err(e) => Err(e),
                Ok(first_name) => match text_at(row, "lastname"@) {
                    Err(e) => Err(e),
                    Ok(last_name) => match date_at(row, "tripstartdate"@) {
                        Err(e) => Err(e),
                        Ok(trip_start_date) => match date_at(row, "tripenddate"@) {
                            Err(e) => Err(e),
                            Ok(trip_end_date) => match optional_text_at(
                                row,
                                "weatherconditions"@,
                            ) {
                                Err(e) => Err(e),
                                Ok(weather_conditions) => match text_at(row, "hutconditions"@) {
                                    Err(e) => Err(e),
                                    Ok(hut_conditions) => match optional_text_at(
                                        row,
                                        "ridingconditions"@,
                                    ) {
                                        Err(e) => Err(e),
                                        Ok(riding_conditions) => match bool_at(row, "approved"@) {
                                            Err(e) => Err(e),
                                            Ok(approved) => Ok(
                                                TripReportView {
                                                    id,
                                                    first_name,
                                                    last_name,
                                                    trip_start_date,
                                                    trip_end_date,
                                                    weather_conditions,
                                                    hut_conditions,
                                                    riding_conditions,
                                                    approved,
                                                    image_links: links_or_none(images),
                                                },
                                            ),
                                        },
                                    },
                                },
                            },
                        },
                    },
                },
            },
        },
    }
}

impl TripReport {
    /// Makes the trip report from a row.
    pub fn map_from(row: Row) -> (r: Result<Self, MappingError>)
        ensures
            match r {
                Ok(report) => trip_report_of(row@) == Ok::<TripReportView, MappingErrorView>(
                    report@,
                ),
                Err(error) => trip_report_of(row@) == Err::<TripReportView, MappingErrorView>(
                    error@,
                ),
            },
    {
        let maybe_image_links = row.try_get_optional_text_array("images")?;
        let id = row.try_get_text("id")?;
        let first_name = row.try_get_text("firstname")?;
        let last_name = row.try_get_text("lastname")?;
        let trip_start_date = row.try_get_date("tripstartdate")?;
        let trip_end_date = row.try_get_date("tripenddate")?;
        let weather_conditions = row.try_get_optional_text("weatherconditions")?;
        let hut_conditions = row.try_get_text("hutconditions")?;
        let riding_conditions = row.try_get_optional_text("ridingconditions")?;
        let approved = row.try_get_bool("approved")?;
        let image_links = match maybe_image_links {
            Some(links) => links,
            None => {
                let links: Vec<String> = Vec::new();
                assert(links.deep_view() =~= Seq::<Seq<char>>::empty());
                links
            },
        };
        Ok(
            TripReport {
                id,
                first_name,
                last_name,
                trip_start_date,
                trip_end_date,
                weather_conditions,
                hut_conditions,
                riding_conditions,
                approved,
                image_links,
            },
        )
    }
}

} // verus!
