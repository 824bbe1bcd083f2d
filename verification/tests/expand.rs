use c_enum::c_enum::{build_spec, expand, expand_declaration, find_repr, plan, ErrorKind};
use c_enum::declaration::{Attribute, Declaration, Variant};
use c_enum::expr::ValueExpr;
use c_enum::resolve::resolve;
use c_enum::source::parse_declaration;

const DUPLICATES: &str = "\
# [derive (Clone , Copy)]
pub struct Duplicates(u8);

#[allow(non_upper_case_globals)]
impl Duplicates {
    # [doc = \" First.\"]
    pub const ITEM1: Self = Self(2);
    pub const ITEM2: Self = Self(Self::ITEM1.0 + 1);
}

impl Duplicates {
    /// Create a new `Duplicates` from a `u8`.
    pub const fn new(value: u8) -> Self {
        Self(value)
    }
}

impl ::core::convert::From<u8> for Duplicates {
    fn from(value: u8) -> Self {
        Self::new(value)
    }
}

impl ::core::convert::From<Duplicates> for u8 {
    fn from(value: Duplicates) -> Self {
        value.0
    }
}

impl ::core::fmt::Debug for Duplicates
where
    u8: ::core::fmt::Debug,
{
    fn fmt(&self, f: &mut ::core::fmt::Formatter<'_>) -> ::core::fmt::Result {
        match self {
            Self(value) if Self::ITEM1.0 == *value => f.write_str(\"Duplicates::ITEM1\"),
            Self(value) if Self::ITEM2.0 == *value => f.write_str(\"Duplicates::ITEM2\"),
            Self(value) => f.debug_tuple(\"Duplicates\").field(value).finish(),
        }
    }
}
";

fn kind_of(attr: &str, input: &str) -> ErrorKind {
    expand(attr, input).unwrap_err().kind()
}

fn plain(text: &str) -> Attribute {
    Attribute {
        text: text.to_string(),
        name: None,
        list_tokens: None,
    }
}

fn sample() -> Declaration {
    Declaration {
        name: "Mode".to_string(),
        visibility: String::new(),
        generic: false,
        attributes: vec![
            plain("#[derive(Clone)]"),
            Attribute {
                text: "#[repr(u16)]".to_string(),
                name: Some("repr".to_string()),
                list_tokens: Some("u16".to_string()),
            },
            plain("#[must_use]"),
        ],
        variants: Some(vec![
            Variant {
                label: "Off".to_string(),
                discriminant: None,
                attributes: Vec::new(),
            },
            Variant {
                label: "On".to_string(),
                discriminant: Some("4".to_string()),
                attributes: vec!["/// Running.".to_string()],
            },
        ]),
    }
}

#[test]
fn expand_writes_the_newtype() {
    let source = expand(
        "",
        "#[derive(Clone, Copy)] #[repr(u8)] pub enum Duplicates { /// First.\n ITEM1 = 2, ITEM2 }",
    )
    .unwrap();
    assert_eq!(source, DUPLICATES);
}

#[test]
fn expanded_source_is_rust() {
    let source = expand(
        "",
        "#[repr(u64)] pub(crate) enum Software { CPU_CYCLES, INSTRUCTIONS = 2, Lowercase = Self::CPU_CYCLES.0 + 7 }",
    )
    .unwrap();
    let file = syn::parse_str::<syn::File>(&source).unwrap();
    assert_eq!(file.items.len(), 6);
    assert!(source.starts_with("pub (crate) struct Software(u64);\n"));
    assert!(source.contains("    pub const Lowercase: Self = Self(Self :: CPU_CYCLES . 0 + 7);\n"));
}

#[test]
fn expand_defaults_to_isize() {
    let source = expand("", "enum Plain { A, B }").unwrap();
    assert!(source.starts_with("struct Plain(isize);\n"));
    assert!(source.contains("    pub const A: Self = Self(0);\n"));
    assert!(source.contains("    pub const B: Self = Self(Self::A.0 + 1);\n"));
    assert!(source.contains("pub const fn new(value: isize) -> Self"));
}

#[test]
fn expand_takes_the_first_repr_and_keeps_the_rest() {
    let source = expand("", "#[repr(u8)] #[repr(C)] #[derive(Debug)] enum Pair { A }").unwrap();
    assert!(source.starts_with("# [repr (C)]\n# [derive (Debug)]\nstruct Pair(u8);\n"));
}

#[test]
fn expand_takes_an_enum_without_variants() {
    let source = expand("", "enum Nothing {}").unwrap();
    assert!(source.contains("impl Nothing {\n}\n"));
    assert!(source.contains(
        "        match self {\n            Self(value) => f.debug_tuple(\"Nothing\")"
    ));
}

#[test]
fn expand_prints_the_underlying_type_as_syn_does() {
    let source = expand("", "#[repr(&'static   str)] enum Words { Hello = \"Hello\" }").unwrap();
    assert!(source.starts_with("struct Words(& 'static str);\n"));
    assert!(source.contains("    pub const Hello: Self = Self(\"Hello\");\n"));
}

#[test]
fn expand_refuses_what_is_no_item() {
    let error = expand("", "fn main() {}").unwrap_err();
    assert_eq!(error.kind(), ErrorKind::Syntax);
    assert_eq!(error.message(), "expected one of: `struct`, `enum`, `union`");
    assert_eq!(kind_of("", "enum {"), ErrorKind::Syntax);
    assert_eq!(kind_of("", ""), ErrorKind::Syntax);
}

#[test]
fn expand_refuses_arguments() {
    let error = expand("u8", "enum A { B }").unwrap_err();
    assert_eq!(error.kind(), ErrorKind::UnexpectedArguments);
    assert_eq!(error.message(), "unexpected arguments to the c_enum macro");
    assert_eq!(kind_of("(", "enum A { B }"), ErrorKind::UnexpectedArguments);
}

#[test]
fn expand_takes_blank_arguments() {
    assert!(expand("  \n", "enum A { B }").is_ok());
    assert!(expand("// nothing", "enum A { B }").is_ok());
}

#[test]
fn expand_reads_the_input_before_the_arguments() {
    assert_eq!(kind_of("u8", "enum"), ErrorKind::Syntax);
}

#[test]
fn expand_refuses_generics() {
    let error = expand("", "enum A<T> { B(T) }").unwrap_err();
    assert_eq!(error.kind(), ErrorKind::Generic);
    assert_eq!(error.message(), "generic enums are not yet supported");
    assert_eq!(kind_of("", "struct A<T>(T);"), ErrorKind::Generic);
    assert_eq!(kind_of("x", "enum A<T> { B(T) }"), ErrorKind::UnexpectedArguments);
}

#[test]
fn expand_refuses_structs_and_unions() {
    let error = expand("", "struct A { b: u8 }").unwrap_err();
    assert_eq!(error.kind(), ErrorKind::NotAnEnum);
    assert_eq!(error.message(), "c_enum only supports enums");
    assert_eq!(kind_of("", "union A { b: u8 }"), ErrorKind::NotAnEnum);
    assert_eq!(kind_of("", "#[repr] struct A;"), ErrorKind::NotAnEnum);
}

#[test]
fn expand_refuses_a_repr_that_is_no_list() {
    let error = expand("", "#[repr] enum A { B }").unwrap_err();
    assert_eq!(error.kind(), ErrorKind::MalformedRepr);
    assert_eq!(error.message(), "could not parse #[repr] annotation");
    assert_eq!(kind_of("", "#[repr = \"u8\"] enum A { B }"), ErrorKind::MalformedRepr);
    assert_eq!(kind_of("", "#[repr] #[repr(u8)] enum A { B }"), ErrorKind::MalformedRepr);
}

#[test]
fn expand_refuses_a_repr_that_holds_no_type() {
    assert_eq!(kind_of("", "#[repr(u8, packed)] enum A { B }"), ErrorKind::Syntax);
    assert_eq!(kind_of("", "#[repr()] enum A { B }"), ErrorKind::Syntax);
    assert_eq!(kind_of("", "#[repr(=)] enum A { B }"), ErrorKind::Syntax);
}

#[test]
fn a_repr_is_told_by_its_whole_path() {
    let source = expand("", "#[some::repr(u8)] enum A { B }").unwrap();
    assert!(source.starts_with("# [some :: repr (u8)]\nstruct A(isize);\n"));
}

#[test]
fn parse_declaration_reads_every_part() {
    let declaration = parse_declaration(
        "#[repr(u32)] /// Kinds.\n #[non_exhaustive] pub(crate) enum Kind { /// One.\n #[allow(unused)] First, Second = 1 << 4, Third(u8) }",
    )
    .unwrap();
    assert_eq!(declaration.name, "Kind");
    assert_eq!(declaration.visibility, "pub (crate)");
    assert!(!declaration.generic);

    assert_eq!(declaration.attributes.len(), 3);
    assert_eq!(declaration.attributes[0].text, "# [repr (u32)]");
    assert_eq!(declaration.attributes[0].name.as_deref(), Some("repr"));
    assert_eq!(declaration.attributes[0].list_tokens.as_deref(), Some("u32"));
    assert_eq!(declaration.attributes[1].text, "# [doc = \" Kinds.\"]");
    assert_eq!(declaration.attributes[1].name.as_deref(), Some("doc"));
    assert_eq!(declaration.attributes[1].list_tokens, None);
    assert_eq!(declaration.attributes[2].text, "# [non_exhaustive]");
    assert_eq!(declaration.attributes[2].name.as_deref(), Some("non_exhaustive"));
    assert_eq!(declaration.attributes[2].list_tokens, None);

    let variants = declaration.variants.unwrap();
    assert_eq!(variants.len(), 3);
    assert_eq!(variants[0].label, "First");
    assert_eq!(variants[0].discriminant, None);
    assert_eq!(
        variants[0].attributes,
        vec!["# [doc = \" One.\"]".to_string(), "# [allow (unused)]".to_string()]
    );
    assert_eq!(variants[1].label, "Second");
    assert_eq!(variants[1].discriminant.as_deref(), Some("1 << 4"));
    assert!(variants[1].attributes.is_empty());
    assert_eq!(variants[2].label, "Third");
    assert_eq!(variants[2].discriminant, None);
}

#[test]
fn an_attribute_has_a_name_only_as_a_single_identifier() {
    let declaration =
        parse_declaration("#[a::b] #[::c] #[d(e)] #[f = 1] #[g] enum A {}").unwrap();
    let names: Vec<Option<&str>> = declaration
        .attributes
        .iter()
        .map(|attribute| attribute.name.as_deref())
        .collect();
    assert_eq!(names, vec![None, None, Some("d"), Some("f"), Some("g")]);
    let lists: Vec<Option<&str>> = declaration
        .attributes
        .iter()
        .map(|attribute| attribute.list_tokens.as_deref())
        .collect();
    assert_eq!(lists, vec![None, None, Some("e"), None, None]);
}

#[test]
fn parse_declaration_reads_structs_and_generics() {
    let declaration = parse_declaration("struct Wrapper<T>(T);").unwrap();
    assert_eq!(declaration.name, "Wrapper");
    assert_eq!(declaration.visibility, "");
    assert!(declaration.generic);
    assert!(declaration.attributes.is_empty());
    assert!(declaration.variants.is_none());

    let union = parse_declaration("pub union Bits { a: u8, b: i8 }").unwrap();
    assert_eq!(union.visibility, "pub");
    assert!(!union.generic);
    assert!(union.variants.is_none());

    let empty = parse_declaration("enum Nothing {}").unwrap();
    assert_eq!(empty.variants.map(|variants| variants.len()), Some(0));
}

#[test]
fn parse_declaration_gives_the_message_of_the_parser() {
    assert_eq!(
        parse_declaration("enum A { B } enum C {}").unwrap_err(),
        "unexpected token"
    );
    assert_eq!(
        parse_declaration("enum A { \"").unwrap_err(),
        "cannot parse string into token stream"
    );
}

#[test]
fn find_repr_gives_the_first() {
    let declaration = sample();
    assert_eq!(find_repr(&declaration.attributes), Some(1));
    assert_eq!(find_repr(&vec![plain("#[a]"), plain("#[b]")]), None);
    assert_eq!(find_repr(&Vec::new()), None);
}

#[test]
fn plan_settles_the_errors_in_order() {
    let mut declaration = sample();
    assert_eq!(plan(false, &declaration).unwrap(), Some(1));

    declaration.attributes[1].list_tokens = None;
    assert_eq!(plan(false, &declaration).unwrap_err().kind(), ErrorKind::MalformedRepr);

    declaration.variants = None;
    assert_eq!(plan(false, &declaration).unwrap_err().kind(), ErrorKind::NotAnEnum);

    declaration.generic = true;
    assert_eq!(plan(false, &declaration).unwrap_err().kind(), ErrorKind::Generic);
    assert_eq!(
        plan(true, &declaration).unwrap_err().kind(),
        ErrorKind::UnexpectedArguments
    );

    let mut bare = sample();
    bare.attributes.remove(1);
    assert_eq!(plan(false, &bare).unwrap(), None);
}

#[test]
fn build_spec_leaves_the_repr_out() {
    let spec = build_spec(&sample(), Some(1), "u16".to_string());
    assert_eq!(spec.name, "Mode");
    assert_eq!(spec.underlying_type, "u16");
    assert_eq!(spec.visibility, "");
    assert_eq!(spec.outer_attributes, vec!["#[derive(Clone)]", "#[must_use]"]);
    assert_eq!(spec.entries.len(), 2);
    assert_eq!(spec.entries[0].label, "Off");
    assert!(spec.entries[0].explicit_value.is_none());
    assert!(spec.entries[0].attributes.is_empty());
    assert_eq!(spec.entries[1].label, "On");
    assert!(matches!(
        &spec.entries[1].explicit_value,
        Some(ValueExpr::Verbatim(source)) if source == "4"
    ));
    assert_eq!(spec.entries[1].attributes, vec!["/// Running."]);
}

#[test]
fn build_spec_keeps_every_attribute_without_a_repr() {
    let spec = build_spec(&sample(), None, "isize".to_string());
    assert_eq!(
        spec.outer_attributes,
        vec!["#[derive(Clone)]", "#[repr(u16)]", "#[must_use]"]
    );
    let beyond = build_spec(&sample(), Some(3), "isize".to_string());
    assert_eq!(beyond.outer_attributes.len(), 3);
    let first = build_spec(&sample(), Some(0), "isize".to_string());
    assert_eq!(first.outer_attributes, vec!["#[repr(u16)]", "#[must_use]"]);
    let last = build_spec(&sample(), Some(2), "isize".to_string());
    assert_eq!(last.outer_attributes, vec!["#[derive(Clone)]", "#[repr(u16)]"]);
}

#[test]
fn build_spec_of_a_struct_has_no_entry() {
    let mut declaration = sample();
    declaration.variants = None;
    assert!(build_spec(&declaration, None, "u8".to_string()).entries.is_empty());
}

#[test]
fn expand_declaration_writes_over_the_type_it_is_given() {
    let source = expand_declaration(false, &sample(), Some("u16".to_string())).unwrap();
    assert!(source.starts_with("#[derive(Clone)]\n#[must_use]\nstruct Mode(u16);\n"));
    assert!(source.contains("    pub const Off: Self = Self(0);\n"));
    assert!(source.contains("    /// Running.\n    pub const On: Self = Self(4);\n"));
}

#[test]
fn expand_declaration_needs_the_type_of_a_repr() {
    assert_eq!(
        expand_declaration(false, &sample(), None).unwrap_err().kind(),
        ErrorKind::Syntax
    );
    assert_eq!(
        expand_declaration(true, &sample(), Some("u16".to_string()))
            .unwrap_err()
            .kind(),
        ErrorKind::UnexpectedArguments
    );
    let mut bare = sample();
    bare.attributes.remove(1);
    let source = expand_declaration(false, &bare, Some("u16".to_string())).unwrap();
    assert!(source.contains("struct Mode(isize);\n"));
}

#[test]
fn a_verbatim_discriminant_is_not_evaluated() {
    let spec = build_spec(&sample(), Some(1), "u16".to_string());
    assert!(resolve(&spec).is_err());
}
