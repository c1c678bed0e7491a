//! The CustomResourceDefinition that each kind is served under, and the
//! object metadata that every resource carries.
use vstd::prelude::*;
use crate::API_GROUP;

verus! {

/// The definition the API server serves a kind under.
#[derive(Clone, Debug, PartialEq, Eq)]
pub struct CustomResourceDefinition {
    pub spec: CustomResourceDefinitionSpec,
}

#[derive(Clone, Debug, PartialEq, Eq)]
pub struct CustomResourceDefinitionSpec {
    /// API group, `mcpg.dev` for every kind here.
    pub group: String,
    pub names: CustomResourceDefinitionNames,
    /// `Namespaced` or `Cluster`.
    pub scope: String,
    pub versions: Vec<CustomResourceDefinitionVersion>,
}

#[derive(Clone, Debug, PartialEq, Eq)]
pub struct CustomResourceDefinitionNames {
    pub kind: String,
    pub plural: String,
    pub short_names: Vec<String>,
}

#[derive(Clone, Debug, PartialEq, Eq)]
pub struct CustomResourceDefinitionVersion {
    pub name: String,
    pub served: bool,
    pub storage: bool,
    /// The `status` subresource is enabled.
    pub status_subresource: bool,
    pub additional_printer_columns: Vec<CustomResourceColumnDefinition>,
}

/// A column that `kubectl get` prints.
#[derive(Clone, Debug, PartialEq, Eq)]
pub struct CustomResourceColumnDefinition {
    pub name: String,
    pub type_: String,
    pub json_path: String,
}

/// A column as name, type and JSON path.
pub open spec fn column_view(c: CustomResourceColumnDefinition) -> (Seq<char>, Seq<char>, Seq<char>) {
    (c.name@, c.type_@, c.json_path@)
}

/// The columns of a version, as names, types and JSON paths.
pub open spec fn columns_view(v: Seq<CustomResourceColumnDefinition>) -> Seq<
    (Seq<char>, Seq<char>, Seq<char>),
> {
    v.map_values(|c: CustomResourceColumnDefinition| column_view(c))
}

/// `d` serves `kind` (plural `plural`, short name `short_name`) in the API
/// group, at the single served storage version `v1alpha1` with the status
/// subresource, and prints `columns`.
pub open spec fn defines_kind(
    d: CustomResourceDefinition,
    kind: Seq<char>,
    plural: Seq<char>,
    short_name: Seq<char>,
    namespaced: bool,
    columns: Seq<(Seq<char>, Seq<char>, Seq<char>)>,
) -> bool {
    &&& d.spec.group@ == API_GROUP@
    &&& d.spec.names.kind@ == kind
    &&& d.spec.names.plural@ == plural
    &&& d.spec.names.short_names@.len() == 1
    &&& d.spec.names.short_names@[0]@ == short_name
    &&& d.spec.scope@ == if namespaced {
        "Namespaced"@
    } else {
        "Cluster"@
    }
    &&& d.spec.versions@.len() == 1
    &&& d.spec.versions@[0].name@ == "v1alpha1"@
    &&& d.spec.versions@[0].served
    &&& d.spec.versions@[0].storage
    &&& d.spec.versions@[0].status_subresource
    &&& columns_view(d.spec.versions@[0].additional_printer_columns@) == columns
}

/// A printer column.
pub fn column(name: &str, type_: &str, json_path: &str) -> (r: CustomResourceColumnDefinition)
    ensures
        column_view(r) == (name@, type_@, json_path@),
{
    CustomResourceColumnDefinition {
        name: name.to_owned(),
        type_: type_.to_owned(),
        json_path: json_path.to_owned(),
    }
}

/// The definition of a kind of the API group.
pub fn definition(
    kind: &str,
    plural: &str,
    short_name: &str,
    namespaced: bool,
    columns: Vec<CustomResourceColumnDefinition>,
) -> (r: CustomResourceDefinition)
    ensures
        defines_kind(r, kind@, plural@, short_name@, namespaced, columns_view(columns@)),
{
    let scope = if namespaced {
        "Namespaced".to_owned()
    } else {
        "Cluster".to_owned()
    };
    let mut short_names: Vec<String> = Vec::new();
    short_names.push(short_name.to_owned());
    let mut versions: Vec<CustomResourceDefinitionVersion> = Vec::new();
    versions.push(
        CustomResourceDefinitionVersion {
            name: "v1alpha1".to_owned(),
            served: true,
            storage: true,
            status_subresource: true,
            additional_printer_columns: columns,
        },
    );
    CustomResourceDefinition {
        spec: CustomResourceDefinitionSpec {
            group: API_GROUP.to_owned(),
            names: CustomResourceDefinitionNames {
                kind: kind.to_owned(),
                plural: plural.to_owned(),
                short_names,
            },
            scope,
            versions,
        },
    }
}

/// The metadata of a resource object.
#[derive(Clone, Debug, Default, PartialEq, Eq)]
pub struct ObjectMeta {
    pub name: Option<String>,
    /// Unset for cluster-scoped kinds.
    pub namespace: Option<String>,
    /// Sequence number of the desired state, set by the API server.
    pub generation: Option<i64>,
}

/// Metadata that names an object and sets nothing else.
pub fn named_meta(name: &str) -> (r: ObjectMeta)
    ensures
        r.name matches Some(n) && n@ == name@,
        r.namespace is None,
        r.generation is None,
{
    ObjectMeta { name: Some(name.to_owned()), namespace: None, generation: None }
}

} // verus!
