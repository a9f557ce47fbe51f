//! The derive-only property compiler: the property artifacts for a struct
//! that needs no full class treatment.

use crate::diag::Errors;
use crate::items::{text_of, views, StructItem, StructView};
use crate::members::{
    extract_properties, field_entries, lemma_properties_unique, properties_of, property_names,
    distinct, Property, PropertyView,
};
use crate::paths::{glib_path, join2, projection, write_projection};
use crate::registry::names_of_properties;
use crate::screen::reported;
use crate::wrapper::texts;
use vstd::prelude::*;

verus! {

/// What is generated for a struct that derives its properties.
#[derive(Debug)]
pub struct DerivedProperties {
    /// The type as written: name and generics.
    pub ty: String,
    /// The wrapper type through which instances are reached.
    pub wrapper_ty: String,
    /// The path of the function that gives the table of properties.
    pub properties_path: String,
    /// The extension trait that carries the accessors. A struct that names
    /// its final type has none: the accessors are inherent methods of that
    /// type.
    pub trait_name: Option<String>,
    /// The final type, where the struct names one.
    pub final_type: Option<String>,
    /// The properties, in declaration order.
    pub properties: Vec<Property>,
    /// The names in the table of properties: the declared ones, in order,
    /// with nothing before them.
    pub table: Vec<String>,
}

pub struct DerivedPropertiesView {
    pub ty: Seq<char>,
    pub wrapper_ty: Seq<char>,
    pub properties_path: Seq<char>,
    pub trait_name: Option<Seq<char>>,
    pub final_type: Option<Seq<char>>,
    pub properties: Seq<PropertyView>,
    pub table: Seq<Seq<char>>,
}

impl View for DerivedProperties {
    type V = DerivedPropertiesView;

    open spec fn view(&self) -> DerivedPropertiesView {
        DerivedPropertiesView {
            ty: self.ty@,
            wrapper_ty: self.wrapper_ty@,
            properties_path: self.properties_path@,
            trait_name: text_of(self.trait_name),
            final_type: text_of(self.final_type),
            properties: views(self.properties@),
            table: texts(self.table@),
        }
    }
}

/// What is generated for the struct `input` under the crate `go`.
pub open spec fn derived(input: StructView, final_type: Option<Seq<char>>, go: Seq<char>) -> DerivedPropertiesView {
    let ty = input.ident + input.generics;
    DerivedPropertiesView {
        ty,
        wrapper_ty: projection(ty, glib_path(go), "::subclass::types::ObjectSubclass"@, "Type"@),
        properties_path: ty + "::derived_properties"@,
        trait_name: if final_type is None {
            Some(input.ident + "PropertiesExt"@)
        } else {
            None
        },
        final_type,
        properties: properties_of(input.fields),
        table: property_names(properties_of(input.fields)),
    }
}

/// Compiles the properties of the struct `input`: the accessors, the
/// table, and the dispatch by identifier over exactly the declared
/// properties. Annotated fields that declare no property are reported.
pub fn derived_class_properties(
    input: &StructItem,
    final_type: Option<String>,
    go: &str,
    errors: &mut Errors,
) -> (out: DerivedProperties)
    ensures
        out@ == derived(input@, text_of(final_type), go@),
        distinct(out@.table),
        final(errors)@ == old(errors)@ + reported(
            field_entries(input@.fields),
            0,
            input@.fields.len() as int,
        ),
{
    let properties = extract_properties(&input.fields, 0, errors);
    proof {
        lemma_properties_unique(input@.fields);
    }
    let glib = join2(go, "::glib");
    let ty = join2(input.ident.as_str(), input.generics.as_str());
    let wrapper_ty = write_projection(
        ty.as_str(),
        glib.as_str(),
        "::subclass::types::ObjectSubclass",
        "Type",
    );
    let properties_path = join2(ty.as_str(), "::derived_properties");
    let trait_name = if final_type.is_none() {
        Some(join2(input.ident.as_str(), "PropertiesExt"))
    } else {
        None
    };
    let table = names_of_properties(&properties);
    DerivedProperties { ty, wrapper_ty, properties_path, trait_name, final_type, properties, table }
}

} // verus!
