use crate::model::row::{text_at, ColumnView, MappingError, MappingErrorView, Row};
use vstd::prelude::*;

verus! {

/// The parts of the key under which a hut's objects are stored.
#[derive(Debug, PartialEq)]
pub struct S3PathAttributes {
    pub sanitized_state: String,
    pub sanitized_system: String,
    pub sanitized_name: String,
}

/// The mathematical value of [`S3PathAttributes`].
pub ghost struct S3PathAttributesView {
    pub sanitized_state: Seq<char>,
    pub sanitized_system: Seq<char>,
    pub sanitized_name: Seq<char>,
}

impl View for S3PathAttributes {
    type V = S3PathAttributesView;

    open spec fn view(&self) -> S3PathAttributesView {
        S3PathAttributesView {
            sanitized_state: self.sanitized_state@,
            sanitized_system: self.sanitized_system@,
            sanitized_name: self.sanitized_name@,
        }
    }
}

/// The path attributes in a row. The columns are read in the order
/// `sanitizedstate`, `sanitizedsystem`, `sanitizedname`, and the first that is
/// missing or misfit is the error.
pub open spec fn path_attributes_of(row: Seq<ColumnView>) -> Result<
    S3PathAttributesView,
    MappingErrorView,
> {
    match text_at(row, "sanitizedstate"@) {
        Err(e) => Err(e),
        Ok(sanitized_state) => match text_at(row, "sanitizedsystem"@) {
            Err(e) => Err(e),
            Ok(sanitized_system) => match text_at(row, "sanitizedname"@) {
                Err(e) => Err(e),
                Ok(sanitized_name) => Ok(
                    S3PathAttributesView { sanitized_state, sanitized_system, sanitized_name },
                ),
            },
        },
    }
}

impl S3PathAttributes {
    /// Makes the path attributes from a row.
    pub fn map_from(row: Row) -> (r: Result<Self, MappingError>)
        ensures
            match r {
                Ok(path) => path_attributes_of(row@) == Ok::<S3PathAttributesView, MappingErrorView>(
                    path@,
                ),
                Err(error) => path_attributes_of(row@) == Err::<
                    S3PathAttributesView,
                    MappingErrorView,
                >(error@),
            },
    {
        let sanitized_state = row.try_get_text("sanitizedstate")?;
        let sanitized_system = row.try_get_text("sanitizedsystem")?;
        let sanitized_name = row.try_get_text("sanitizedname")?;
        Ok(S3PathAttributes { sanitized_state, sanitized_system, sanitized_name })
    }
}

/// A change to the images that are linked to a hut.
#[derive(Debug, PartialEq)]
pub struct ImgLinkUpdates {
    pub thumbnail_image: Option<String>,
    pub images: Vec<String>,
}

/// The mathematical value of [`ImgLinkUpdates`].
pub ghost struct ImgLinkUpdatesView {
    pub thumbnail_image: Option<Seq<char>>,
    pub images: Seq<Seq<char>>,
}

impl View for ImgLinkUpdates {
    type V = ImgLinkUpdatesView;

    open spec fn view(&self) -> ImgLinkUpdatesView {
        ImgLinkUpdatesView {
            thumbnail_image: self.thumbnail_image.deep_view(),
            images: self.images.deep_view(),
        }
    }
}

} // verus!
