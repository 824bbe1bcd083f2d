//! A declaration as it is read from source text: what `syn` makes of an
//! item, held as plain values.

use crate::text::texts;
use vstd::prelude::*;

verus! {

/// An attribute of the declared item.
#[derive(Debug)]
pub struct Attribute {
    /// The attribute as source text.
    pub text: String,
    /// The name of the attribute, where its path is a single identifier:
    /// `derive` for `#[derive(Clone)]`, `None` for `#[a::b]`.
    pub name: Option<String>,
    /// The tokens between the delimiters, where the attribute is a path
    /// followed by a delimited list.
    pub list_tokens: Option<String>,
}

/// The mathematical content of an [`Attribute`].
pub struct AttributeView {
    pub text: Seq<char>,
    pub name: Option<Seq<char>>,
    pub list_tokens: Option<Seq<char>>,
}

impl View for Attribute {
    type V = AttributeView;

    open spec fn view(&self) -> AttributeView {
        AttributeView {
            text: self.text@,
            name: match self.name {
                Some(name) => Some(name@),
                None => None,
            },
            list_tokens: match self.list_tokens {
                Some(tokens) => Some(tokens@),
                None => None,
            },
        }
    }
}

/// A variant of a declared enum.
#[derive(Debug)]
pub struct Variant {
    /// The name of the variant.
    pub label: String,
    /// The expression behind `=`, as source text, where there is one.
    pub discriminant: Option<String>,
    /// The attributes of the variant, each as source text.
    pub attributes: Vec<String>,
}

/// The mathematical content of a [`Variant`].
pub struct VariantView {
    pub label: Seq<char>,
    pub discriminant: Option<Seq<char>>,
    pub attributes: Seq<Seq<char>>,
}

impl View for Variant {
    type V = VariantView;

    open spec fn view(&self) -> VariantView {
        VariantView {
            label: self.label@,
            discriminant: match self.discriminant {
                Some(source) => Some(source@),
                None => None,
            },
            attributes: texts(self.attributes@),
        }
    }
}

/// A struct, enum or union as declared.
#[derive(Debug)]
pub struct Declaration {
    /// The name of the item.
    pub name: String,
    /// The visibility as source text; empty where none is written.
    pub visibility: String,
    /// Whether generic parameters are written.
    pub generic: bool,
    /// The attributes of the item, in order.
    pub attributes: Vec<Attribute>,
    /// The variants in order, where the item is an enum; `None` for a
    /// struct or a union.
    pub variants: Option<Vec<Variant>>,
}

/// The mathematical content of a [`Declaration`].
pub struct DeclarationView {
    pub name: Seq<char>,
    pub visibility: Seq<char>,
    pub generic: bool,
    pub attributes: Seq<AttributeView>,
    pub variants: Option<Seq<VariantView>>,
}

/// The views of a list of attributes.
pub open spec fn attribute_views(list: Seq<Attribute>) -> Seq<AttributeView> {
    Seq::new(list.len(), |i: int| list[i]@)
}

/// The views of a list of variants.
pub open spec fn variant_views(list: Seq<Variant>) -> Seq<VariantView> {
    Seq::new(list.len(), |i: int| list[i]@)
}

impl View for Declaration {
    type V = DeclarationView;

    open spec fn view(&self) -> DeclarationView {
        DeclarationView {
            name: self.name@,
            visibility: self.visibility@,
            generic: self.generic,
            attributes: attribute_views(self.attributes@),
            variants: match self.variants {
                Some(list) => Some(variant_views(list@)),
                None => None,
            },
        }
    }
}

} // verus!
