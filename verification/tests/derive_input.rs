use lafere::derive_input::{
    action_variants, field_attr, message_attr, repr_as_i32, repr_as_u16, variants_no_fields,
    variants_with_fields, AttrError, AttrModel, AttrSpot, DeriveError, DiscriminantModel,
    FieldAttr, FieldsModel, MetaModel, NestedModel, Problem, Spot, TypePathModel, VariantModel,
};

fn field(entries: Vec<NestedModel>) -> AttrModel {
    AttrModel {
        name: "field".to_string(),
        meta: MetaModel::List(entries),
        type_path: TypePathModel::Unparsable,
        ident: None,
    }
}

fn num(d: &str) -> NestedModel {
    NestedModel::Int(d.to_string())
}

fn ident(n: &str) -> NestedModel {
    NestedModel::Ident(n.to_string())
}

fn other_attr(name: &str) -> AttrModel {
    AttrModel {
        name: name.to_string(),
        meta: MetaModel::NotList,
        type_path: TypePathModel::Unparsable,
        ident: None,
    }
}

fn args_attr(name: &str, arg: &str) -> AttrModel {
    AttrModel {
        name: name.to_string(),
        meta: MetaModel::List(vec![ident(arg)]),
        type_path: TypePathModel::Ident(arg.to_string()),
        ident: Some(arg.to_string()),
    }
}

fn err(spot: AttrSpot, problem: Problem) -> Result<FieldAttr, AttrError> {
    Err(AttrError { spot, problem })
}

#[test]
fn field_numbers() {
    let attrs = vec![other_attr("doc"), field(vec![num("3")])];
    assert_eq!(field_attr(&attrs), Ok(FieldAttr { fieldnum: 1, default: None }));

    let attrs = vec![field(vec![num("1"), ident("default")])];
    assert_eq!(field_attr(&attrs), Ok(FieldAttr { fieldnum: 0, default: Some(0) }));

    // the last attribute gives the number
    let attrs = vec![field(vec![num("1"), ident("default")]), field(vec![num("2")])];
    assert_eq!(field_attr(&attrs), Ok(FieldAttr { fieldnum: 1, default: Some(0) }));
}

#[test]
fn field_number_errors() {
    assert_eq!(field_attr(&vec![]), err(AttrSpot::CallSite, Problem::ExpectedFieldAttr));
    assert_eq!(field_attr(&vec![field(vec![num("0")])]), err(AttrSpot::Entry(0, 0), Problem::ZeroFieldNumber));
    assert_eq!(field_attr(&vec![field(vec![])]), err(AttrSpot::ListPath(0), Problem::ExpectedFieldNumberFirst));
    assert_eq!(field_attr(&vec![field(vec![ident("x")])]), err(AttrSpot::Entry(0, 0), Problem::ExpectedFieldNumber));
    assert_eq!(
        field_attr(&vec![field(vec![num("4"), ident("dflt")])]),
        err(AttrSpot::Entry(0, 1), Problem::ExpectedDefault)
    );
    let mut not_list = other_attr("field");
    assert_eq!(field_attr(&vec![not_list.clone()]), err(AttrSpot::Attr(0), Problem::ExpectedFieldAttr));
    not_list.meta = MetaModel::Unparsable;
    // the first wrong attribute counts
    assert_eq!(
        field_attr(&vec![field(vec![num("1")]), not_list, field(vec![])]),
        err(AttrSpot::Attr(1), Problem::ParseFailed)
    );
}

#[test]
fn repr_attributes() {
    assert_eq!(repr_as_i32(&vec![other_attr("doc")]), Ok(false));
    assert_eq!(repr_as_i32(&vec![args_attr("repr", "i32")]), Ok(true));
    assert_eq!(repr_as_u16(&vec![args_attr("repr", "u16")]), Ok(true));
    assert_eq!(
        repr_as_u16(&vec![args_attr("repr", "u16"), args_attr("repr", "u8")]),
        Err(AttrError { spot: AttrSpot::Attr(1), problem: Problem::ExpectedU16 })
    );
    let mut longer = args_attr("repr", "x");
    longer.type_path = TypePathModel::Longer;
    assert_eq!(
        repr_as_i32(&vec![longer]),
        Err(AttrError { spot: AttrSpot::Attr(0), problem: Problem::ExpectedI32 })
    );
    let unreadable = other_attr("repr");
    assert_eq!(
        repr_as_i32(&vec![unreadable]),
        Err(AttrError { spot: AttrSpot::Attr(0), problem: Problem::ParseFailed })
    );
}

#[test]
fn message_attributes() {
    assert_eq!(message_attr(&vec![other_attr("doc"), args_attr("message", "json")]), Ok(1));
    assert_eq!(
        message_attr(&vec![]),
        Err(AttrError { spot: AttrSpot::CallSite, problem: Problem::NeedMessageAttr })
    );
}

fn plain_variant(d: &str) -> VariantModel {
    VariantModel {
        attrs: vec![],
        discriminant: DiscriminantModel::Int(d.to_string()),
        fields: FieldsModel::Unit,
    }
}

#[test]
fn enum_without_fields() {
    let vs = vec![plain_variant("1"), plain_variant("0"), plain_variant("2")];
    assert_eq!(variants_no_fields(&vs), Ok((vec![0, 2], 1)));

    let vs = vec![plain_variant("1")];
    assert_eq!(
        variants_no_fields(&vs),
        Err(DeriveError { spot: Spot::Item(AttrSpot::CallSite), problem: Problem::NoDefaultVariant })
    );
    let vs = vec![plain_variant("0"), plain_variant("0")];
    assert_eq!(
        variants_no_fields(&vs),
        Err(DeriveError { spot: Spot::Item(AttrSpot::CallSite), problem: Problem::SeveralDefaultVariants })
    );
    let mut missing = plain_variant("0");
    missing.discriminant = DiscriminantModel::Missing;
    assert_eq!(
        variants_no_fields(&vec![plain_variant("0"), missing]),
        Err(DeriveError { spot: Spot::Variant(1), problem: Problem::NeedsFieldNumber })
    );
    let mut with_fields = plain_variant("3");
    with_fields.fields = FieldsModel::Unnamed(1);
    assert_eq!(
        variants_no_fields(&vec![with_fields]),
        Err(DeriveError { spot: Spot::VariantFields(0), problem: Problem::NoFieldsAllowed })
    );
}

#[test]
fn action_enum() {
    assert_eq!(action_variants(&vec![plain_variant("1"), plain_variant("2")]), Ok(()));
    assert_eq!(
        action_variants(&vec![plain_variant("1"), plain_variant("0")]),
        Err(DeriveError { spot: Spot::Item(AttrSpot::CallSite), problem: Problem::ZeroNotAllowed })
    );
    let mut other = plain_variant("1");
    other.discriminant = DiscriminantModel::Other;
    assert_eq!(
        action_variants(&vec![other]),
        Err(DeriveError { spot: Spot::Discriminant(0), problem: Problem::ExpectedInt })
    );
}

fn field_variant(n: &str, default: bool, fields: FieldsModel) -> VariantModel {
    let mut entries = vec![num(n)];
    if default {
        entries.push(ident("default"));
    }
    VariantModel { attrs: vec![field(entries)], discriminant: DiscriminantModel::Missing, fields }
}

#[test]
fn enum_with_fields() {
    let vs = vec![
        field_variant("1", true, FieldsModel::Unit),
        field_variant("2", false, FieldsModel::Unnamed(1)),
    ];
    assert_eq!(
        variants_with_fields(&vs),
        Ok(vec![
            (FieldAttr { fieldnum: 0, default: Some(0) }, false),
            (FieldAttr { fieldnum: 0, default: None }, true)
        ])
    );
    let vs = vec![field_variant("1", false, FieldsModel::Unit)];
    assert_eq!(
        variants_with_fields(&vs),
        Err(DeriveError { spot: Spot::Item(AttrSpot::CallSite), problem: Problem::NoDefaultField })
    );
    let vs = vec![field_variant("1", true, FieldsModel::Unit), field_variant("2", true, FieldsModel::Unit)];
    assert_eq!(
        variants_with_fields(&vs),
        Err(DeriveError { spot: Spot::Item(AttrSpot::CallSite), problem: Problem::SeveralDefaultFields })
    );
    let vs = vec![field_variant("1", true, FieldsModel::Unnamed(2))];
    assert_eq!(
        variants_with_fields(&vs),
        Err(DeriveError { spot: Spot::VariantFields(0), problem: Problem::OnlyOneUnnamedField })
    );
    let vs = vec![field_variant("0", true, FieldsModel::Named)];
    assert_eq!(
        variants_with_fields(&vs),
        Err(DeriveError { spot: Spot::InVariant(0, AttrSpot::Entry(0, 0)), problem: Problem::ZeroFieldNumber })
    );
}

#[test]
fn problem_messages() {
    assert_eq!(Problem::ExpectedFieldAttr.message(), "expected #[field(..)]");
    assert_eq!(Problem::ZeroFieldNumber.message(), "numbers need to be > 0");
    assert_eq!(Problem::NeedMessageAttr.message(), "need an attribute #[message(..)]");
}
