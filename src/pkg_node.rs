//! The kinds of node in a package's object tree.

use vstd::prelude::*;

verus! {

/// A category node of a package.
#[derive(Clone, Debug, PartialEq, Eq)]
pub struct CategoryNode {
    pub name: String,
}

/// The package node at the top of a package.
#[derive(Clone, Debug, PartialEq, Eq)]
pub struct PackageNode {
    pub name: String,
}

/// A prop node of a package.
#[derive(Clone, Debug, PartialEq, Eq)]
pub struct PropNode {
    pub name: String,
}

/// A schema node of a package.
#[derive(Clone, Debug, PartialEq, Eq)]
pub struct SchemaNode {
    pub name: String,
}

/// A schema variant node of a package.
#[derive(Clone, Debug, PartialEq, Eq)]
pub struct SchemaVariantNode {
    pub name: String,
}

/// A node of a package's object tree.
#[derive(Clone, Debug, PartialEq, Eq)]
pub enum PkgNode {
    Category(CategoryNode),
    Package(PackageNode),
    Prop(PropNode),
    Schema(SchemaNode),
    SchemaVariant(SchemaVariantNode),
}

/// The tag that names the kind of a node in a stored package.
pub open spec fn kind_str_of(node: PkgNode) -> Seq<char> {
    match node {
        PkgNode::Category(_) => "category"@,
        PkgNode::Package(_) => "package"@,
        PkgNode::Prop(_) => "prop"@,
        PkgNode::Schema(_) => "schema"@,
        PkgNode::SchemaVariant(_) => "schema_variant"@,
    }
}

/// The name that a node carries, whatever its kind.
pub open spec fn name_of(node: PkgNode) -> Seq<char> {
    match node {
        PkgNode::Category(n) => n.name@,
        PkgNode::Package(n) => n.name@,
        PkgNode::Prop(n) => n.name@,
        PkgNode::Schema(n) => n.name@,
        PkgNode::SchemaVariant(n) => n.name@,
    }
}

impl PkgNode {
    pub const CATEGORY_KIND_STR: &'static str = "category";
    pub const PACKAGE_KIND_STR: &'static str = "package";
    pub const PROP_KIND_STR: &'static str = "prop";
    pub const SCHEMA_KIND_STR: &'static str = "schema";
    pub const SCHEMA_VARIANT_KIND_STR: &'static str = "schema_variant";

    /// The kind tag of the node.
    pub fn node_kind_str(&self) -> (r: &'static str)
        ensures
            r@ == kind_str_of(*self),
    {
        match self {
            PkgNode::Category(_) => "category",
            PkgNode::Package(_) => "package",
            PkgNode::Prop(_) => "prop",
            PkgNode::Schema(_) => "schema",
            PkgNode::SchemaVariant(_) => "schema_variant",
        }
    }

    /// The name of the node.
    pub fn name(&self) -> (r: &str)
        ensures
            r@ == name_of(*self),
    {
        match self {
            PkgNode::Category(node) => node.name.as_str(),
            PkgNode::Package(node) => node.name.as_str(),
            PkgNode::Prop(node) => node.name.as_str(),
            PkgNode::Schema(node) => node.name.as_str(),
            PkgNode::SchemaVariant(node) => node.name.as_str(),
        }
    }
}

} // verus!
