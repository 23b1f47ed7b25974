use crate::json::{Json, JsonView};
use vstd::prelude::*;

verus! {

/// The descriptive part of a geographic feature.
#[derive(Clone, Debug, PartialEq)]
pub struct Properties {
    pub class: String,
    pub title: String,
    pub description: Option<String>,
    pub folder_id: Option<String>,
    pub marker_color: Option<String>,
    pub marker_symbol: Option<String>,
    pub stroke: Option<String>,
    pub huttripper_type: Option<String>,
}

/// The mathematical value of [`Properties`].
pub ghost struct PropertiesView {
    pub class: Seq<char>,
    pub title: Seq<char>,
    pub description: Option<Seq<char>>,
    pub folder_id: Option<Seq<char>>,
    pub marker_color: Option<Seq<char>>,
    pub marker_symbol: Option<Seq<char>>,
    pub stroke: Option<Seq<char>>,
    pub huttripper_type: Option<Seq<char>>,
}

impl View for Properties {
    type V = PropertiesView;

    open spec fn view(&self) -> PropertiesView {
        PropertiesView {
            class: self.class@,
            title: self.title@,
            description: self.description.deep_view(),
            folder_id: self.folder_id.deep_view(),
            marker_color: self.marker_color.deep_view(),
            marker_symbol: self.marker_symbol.deep_view(),
            stroke: self.stroke.deep_view(),
            huttripper_type: self.huttripper_type.deep_view(),
        }
    }
}

/// A geographic feature. Its geometry is carried as it came.
#[derive(Clone, Debug, PartialEq)]
pub struct Feature {
    pub id: Option<String>,
    pub type_field: String,
    pub geometry: Json,
    pub properties: Properties,
}

/// The mathematical value of [`Feature`].
pub ghost struct FeatureView {
    pub id: Option<Seq<char>>,
    pub type_field: Seq<char>,
    pub geometry: JsonView,
    pub properties: PropertiesView,
}

impl View for Feature {
    type V = FeatureView;

    open spec fn view(&self) -> FeatureView {
        FeatureView {
            id: self.id.deep_view(),
            type_field: self.type_field@,
            geometry: self.geometry@,
            properties: self.properties@,
        }
    }
}

impl DeepView for Feature {
    type V = FeatureView;

    open spec fn deep_view(&self) -> FeatureView {
        self@
    }
}

/// A collection of geographic features with its type tag.
#[derive(Debug, PartialEq)]
pub struct GeoJSON {
    pub type_field: String,
    pub features: Vec<Feature>,
}

/// The mathematical value of [`GeoJSON`].
pub ghost struct GeoJSONView {
    pub type_field: Seq<char>,
    pub features: Seq<FeatureView>,
}

impl View for GeoJSON {
    type V = GeoJSONView;

    open spec fn view(&self) -> GeoJSONView {
        GeoJSONView { type_field: self.type_field@, features: self.features.deep_view() }
    }
}

/// The features of the huts.
#[derive(Debug, PartialEq)]
pub struct HutsJSON {
    pub features: Vec<Feature>,
}

impl View for HutsJSON {
    type V = Seq<FeatureView>;

    open spec fn view(&self) -> Seq<FeatureView> {
        self.features.deep_view()
    }
}

} // verus!
