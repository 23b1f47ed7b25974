use crate::model::row::{text_array_at, text_at, ColumnView, MappingError, MappingErrorView, Row};
use crate::text::{join, joined};
use vstd::prelude::*;

verus! {

/// What of a hut goes into the search index.
#[derive(Debug, PartialEq)]
pub struct HutSearchRepresentation {
    pub name: String,
    pub sanitized_name: String,
    pub system: String,
    pub state: String,
    /// The amenities, in their order, with one space between each two.
    pub amenities: String,
}

/// The mathematical value of [`HutSearchRepresentation`].
pub ghost struct HutSearchRepresentationView {
    pub name: Seq<char>,
    pub sanitized_name: Seq<char>,
    pub system: Seq<char>,
    pub state: Seq<char>,
    pub amenities: Seq<char>,
}

impl View for HutSearchRepresentation {
    type V = HutSearchRepresentationView;

    open spec fn view(&self) -> HutSearchRepresentationView {
        HutSearchRepresentationView {
            name: self.name@,
            sanitized_name: self.sanitized_name@,
            system: self.system@,
            state: self.state@,
            amenities: self.amenities@,
        }
    }
}

/// The search representation of the hut in a row. The columns are read in the
/// order `amenities`, `name`, `sanitizedname`, `system`, `state`, and the
/// first that is missing or misfit is the error.
pub open spec fn hut_search_of(row: Seq<ColumnView>) -> Result<
    HutSearchRepresentationView,
    MappingErrorView,
> {
    match text_array_at(row, "amenities"@) {
        Err(e) => Err(e),
        Ok(amenities) => match text_at(row, "name"@) {
            Err(e) => Err(e),
            Ok(name) => match text_at(row, "sanitizedname"@) {
                Err(e) => Err(e),
                Ok(sanitized_name) => match text_at(row, "system"@) {
                    Err(e) => Err(e),
                    Ok(system) => match text_at(row, "state"@) {
                        Err(e) => Err(e),
                        Ok(state) => Ok(
                            HutSearchRepresentationView {
                                name,
                                sanitized_name,
                                system,
                                state,
                                amenities: joined(amenities, " "@),
                            },
                        ),
                    },
                },
            },
        },
    }
}

impl HutSearchRepresentation {
    /// Makes the search representation of the hut in a row.
    pub fn map_from(row: Row) -> (r: Result<Self, MappingError>)
        ensures
            match r {
                Ok(hut) => hut_search_of(row@) == Ok::<
                    HutSearchRepresentationView,
                    MappingErrorView,
                >(hut@),
                Err(error) => hut_search_of(row@) == Err::<
                    HutSearchRepresentationView,
                    MappingErrorView,
                >(error@),
            },
    {
        let amenities = row.try_get_text_array("amenities")?;
        let name = row.try_get_text("name")?;
        let sanitized_name = row.try_get_text("sanitizedname")?;
        let system = row.try_get_text("system")?;
        let state = row.try_get_text("state")?;
        Ok(
            HutSearchRepresentation {
                name,
                sanitized_name,
                system,
                state,
                amenities: join(&amenities, " "),
            },
        )
    }
}

/// What of a trip report goes into the search index.
#[derive(Debug, PartialEq)]
pub struct TripReportSearchRepresentation {
    pub id: String,
    pub hut_conditions: String,
    pub weather_conditions: String,
    pub riding_conditions: String,
}

/// The mathematical value of [`TripReportSearchRepresentation`].
pub ghost struct TripReportSearchRepresentationView {
    pub id: Seq<char>,
    pub hut_conditions: Seq<char>,
    pub weather_conditions: Seq<char>,
    pub riding_conditions: Seq<char>,
}

impl View for TripReportSearchRepresentation {
    type V = TripReportSearchRepresentationView;

    open spec fn view(&self) -> TripReportSearchRepresentationView {
        TripReportSearchRepresentationView {
            id: self.id@,
            hut_conditions: self.hut_conditions@,
            weather_conditions: self.weather_conditions@,
            riding_conditions: self.riding_conditions@,
        }
    }
}

/// The search representation of the trip report in a row. The columns are
/// read in the order `id`, `hutconditions`, `weatherconditions`,
/// `ridingconditions`, and the first that is missing or misfit is the error.
pub open spec fn trip_report_search_of(row: Seq<ColumnView>) -> Result<
    TripReportSearchRepresentationView,
    MappingErrorView,
> {
    match text_at(row, "id"@) {
        Err(e) => Err(e),
        Ok(id) => match text_at(row, "hutconditions"@) {
            Err(e) => Err(e),
            Ok(hut_conditions) => match text_at(row, "weatherconditions"@) {
                Err(e) => Err(e),
                Ok(weather_conditions) => match text_at(row, "ridingconditions"@) {
                    Err(e) => Err(e),
                    Ok(riding_conditions) => Ok(
                        TripReportSearchRepresentationView {
                            id,
                            hut_conditions,
                            weather_conditions,
                            riding_conditions,
                        },
                    ),
                },
            },
        },
    }
}

impl TripReportSearchRepresentation {
    /// Makes the search representation of the trip report in a row.
    pub fn map_from(row: Row) -> (r: Result<Self, MappingError>)
        ensures
            match r {
                Ok(report) => trip_report_search_of(row@) == Ok::<
                    TripReportSearchRepresentationView,
                    MappingErrorView,
                >(report@),
                Err(error) => trip_report_search_of(row@) == Err::<
                    TripReportSearchRepresentationView,
                    MappingErrorView,
                >(error@),
            },
    {
        let id = row.try_get_text("id")?;
        let hut_conditions = row.try_get_text("hutconditions")?;
        let weather_conditions = row.try_get_text("weatherconditions")?;
        let riding_conditions = row.try_get_text("ridingconditions")?;
        Ok(TripReportSearchRepresentation { id, hut_conditions, weather_conditions, riding_conditions })
    }
}

/// What of an article goes into the search index.
#[derive(Clone, Debug, PartialEq)]
pub struct ArticleSearchRepresentation {
    pub id: String,
    pub title: String,
    pub description: String,
}

/// The mathematical value of [`ArticleSearchRepresentation`].
pub ghost struct ArticleSearchRepresentationView {
    pub id: Seq<char>,
    pub title: Seq<char>,
    pub description: Seq<char>,
}

impl View for ArticleSearchRepresentation {
    type V = ArticleSearchRepresentationView;

    open spec fn view(&self) -> ArticleSearchRepresentationView {
        ArticleSearchRepresentationView {
            id: self.id@,
            title: self.title@,
            description: self.description@,
        }
    }
}

/// The search representation of the article in a row. The columns are read in
/// the order `id`, `title`, `description`, and the first that is missing or
/// misfit is the error.
pub open spec fn article_search_of(row: Seq<ColumnView>) -> Result<
    ArticleSearchRepresentationView,
    MappingErrorView,
> {
    match text_at(row, "id"@) {
        Err(e) => Err(e),
        Ok(id) => match text_at(row, "title"@) {
            Err(e) => Err(e),
            Ok(title) => match text_at(row, "description"@) {
                Err(e) => Err(e),
                Ok(description) => Ok(ArticleSearchRepresentationView { id, title, description }),
            },
        },
    }
}

impl ArticleSearchRepresentation {
    /// Makes the search representation of the article in a row.
    pub fn map_from(row: Row) -> (r: Result<Self, MappingError>)
        ensures
            match r {
                Ok(article) => article_search_of(row@) == Ok::<
                    ArticleSearchRepresentationView,
                    MappingErrorView,
                >(article@),
                Err(error) => article_search_of(row@) == Err::<
                    ArticleSearchRepresentationView,
                    MappingErrorView,
                >(error@),
            },
    {
        let id = row.try_get_text("id")?;
        let title = row.try_get_text("title")?;
        let description = row.try_get_text("description")?;
        Ok(ArticleSearchRepresentation { id, title, description })
    }
}

} // verus!
