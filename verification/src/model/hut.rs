use crate::model::row::{
    double_at, int_at, optional_text_at, text_at, ColumnView, MappingError, MappingErrorView, Row,
};
use vstd::prelude::*;

verus! {

/// What is public of a hut.
#[derive(Debug, PartialEq)]
pub struct HutsFilterResult {
    pub name: String,
    pub sanitized_name: String,
    pub state: String,
    pub sanitized_state: String,
    pub system: String,
    pub max_capacity: i32,
    /// Longitude, then latitude, each as the bit pattern of a double-precision
    /// number.
    pub point: Vec<u64>,
    pub image_links: Vec<String>,
}

/// The mathematical value of [`HutsFilterResult`].
pub ghost struct HutsFilterResultView {
    pub name: Seq<char>,
    pub sanitized_name: Seq<char>,
    pub state: Seq<char>,
    pub sanitized_state: Seq<char>,
    pub system: Seq<char>,
    pub max_capacity: i32,
    pub point: Seq<u64>,
    pub image_links: Seq<Seq<char>>,
}

impl View for HutsFilterResult {
    type V = HutsFilterResultView;

    open spec fn view(&self) -> HutsFilterResultView {
        HutsFilterResultView {
            name: self.name@,
            sanitized_name: self.sanitized_name@,
            state: self.state@,
            sanitized_state: self.sanitized_state@,
            system: self.system@,
            max_capacity: self.max_capacity,
            point: self.point@,
            image_links: self.image_links.deep_view(),
        }
    }
}

/// The image links that come of a hut's thumbnail: the thumbnail alone, and
/// no link where there is no thumbnail or an empty one.
pub open spec fn thumbnail_links(thumbnail: Option<Seq<char>>) -> Seq<Seq<char>> {
    match thumbnail {
        Some(link) => if link.len() > 0 {
            seq![link]
        } else {
            Seq::empty()
        },
        None => Seq::empty(),
    }
}

/// The hut in a row. The columns are read in the order `thumbnailimage`,
/// `name`, `sanitizedname`, `state`, `sanitizedstate`, `system`,
/// `maxcapacity`, `longitude`, `latitude`, and the first that is missing or
/// misfit is the error.
pub open spec fn hut_of(row: Seq<ColumnView>) -> Result<HutsFilterResultView, MappingErrorView> {
    match optional_text_at(row, "thumbnailimage"@) {
        Err(e) => Err(e),
        Ok(thumbnail) => match text_at(row, "name"@) {
            Err(e) => Err(e),
            Ok(name) => match text_at(row, "sanitizedname"@) {
                Err(e) => Err(e),
                Ok(sanitized_name) => match text_at(row, "state"@) {
                    Err(e) => Err(e),
                    Ok(state) => match text_at(row, "sanitizedstate"@) {
                        Err(e) => Err(e),
                        Ok(sanitized_state) => match text_at(row, "system"@) {
                            Err(e) => Err(e),
                            Ok(system) => match int_at(row, "maxcapacity"@) {
                                Err(e) => Err(e),
                                Ok(max_capacity) => match double_at(row, "longitude"@) {
                                    Err(e) => Err(e),
                                    Ok(longitude) => match double_at(row, "latitude"@) {
                                        Err(e) => Err(e),
                                        Ok(latitude) => Ok(
                                            HutsFilterResultView {
                                                name,
                                                sanitized_name,
                                                state,
                                                sanitized_state,
                                                system,
                                                max_capacity,
                                                point: seq![longitude, latitude],
                                                image_links: thumbnail_links(thumbnail),
                                            },
                                        ),
                                    },
                                },
                            },
                        },
                    },
                },
            },
        },
    }
}

/// Makes the image links of a hut from its thumbnail.
pub fn links_of_thumbnail(thumbnail: Option<String>) -> (r: Vec<String>)
    ensures
        r.deep_view() == thumbnail_links(thumbnail.deep_view()),
{
    let mut links: Vec<String> = Vec::new();
    match thumbnail {
        Some(link) => {
            if !link.as_str().is_empty() {
                links.push(link);
                assert(links.deep_view() =~= seq![link@]);
            } else {
                assert(links.deep_view() =~= Seq::<Seq<char>>::empty());
            }
        },
        None => {
            assert(links.deep_view() =~= Seq::<Seq<char>>::empty());
        },
    }
    links
}

impl HutsFilterResult {
    /// Makes the hut from a row.
    pub fn map_from(row: Row) -> (r: Result<Self, MappingError>)
        ensures
            match r {
                Ok(hut) => hut_of(row@) == Ok::<HutsFilterResultView, MappingErrorView>(hut@),
                Err(error) => hut_of(row@) == Err::<HutsFilterResultView, MappingErrorView>(error@),
            },
    {
        let thumbnail_image = row.try_get_optional_text("thumbnailimage")?;
        let image_links = links_of_thumbnail(thumbnail_image);
        let name = row.try_get_text("name")?;
        let sanitized_name = row.try_get_text("sanitizedname")?;
        let state = row.try_get_text("state")?;
        let sanitized_state = row.try_get_text("sanitizedstate")?;
        let system = row.try_get_text("system")?;
        let max_capacity = row.try_get_int("maxcapacity")?;
        let longitude = row.try_get_double("longitude")?;
        let latitude = row.try_get_double("latitude")?;
        let mut point: Vec<u64> = Vec::new();
        point.push(longitude);
        point.push(latitude);
        assert(point@ =~= seq![longitude, latitude]);
        Ok(
            HutsFilterResult {
                name,
                sanitized_name,
                state,
                sanitized_state,
                system,
                max_capacity,
                point,
                image_links,
            },
        )
    }
}

} // verus!
