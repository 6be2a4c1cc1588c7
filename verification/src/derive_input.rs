//! The rules that the derive macros hold a user's type to, read from a
//! model of the type's declaration: which attribute gives a field its
//! number, which enum variant is the default, what a `#[repr(..)]` says.
//! The code that reads the declaration and writes the generated code lives
//! with the macros.
use vstd::prelude::*;

verus! {

/// An entry of an attribute's list, as far as the macros read it.
#[derive(Debug, Clone, PartialEq, Eq)]
pub enum NestedModel {
    /// an integer literal, by its digits in base ten
    Int(String),
    /// a path that is one identifier, by its name
    Ident(String),
    /// anything else
    Other,
}

/// The arguments of an attribute read as a list: `name(a, b, ..)`.
#[derive(Debug, Clone, PartialEq, Eq)]
pub enum MetaModel {
    List(Vec<NestedModel>),
    /// `name` or `name = value`
    NotList,
    /// the attribute could not be read
    Unparsable,
}

/// The arguments of an attribute read as a type path: `name(Type)`.
#[derive(Debug, Clone, PartialEq, Eq)]
pub enum TypePathModel {
    /// a path that is one identifier, by its name
    Ident(String),
    /// a longer path
    Longer,
    /// the arguments are no type path
    Unparsable,
}

/// An attribute: the name of its path (empty when the path is more than
/// one identifier) and its arguments, read in the ways the macros read
/// them.
#[derive(Debug, Clone, PartialEq, Eq)]
pub struct AttrModel {
    pub name: String,
    pub meta: MetaModel,
    pub type_path: TypePathModel,
    /// the arguments read as one identifier, if they are one
    pub ident: Option<String>,
}

/// The value given to an enum variant with `Variant = value`.
#[derive(Debug, Clone, PartialEq, Eq)]
pub enum DiscriminantModel {
    Missing,
    /// an integer literal, by its digits in base ten
    Int(String),
    Other,
}

/// The fields of an enum variant.
#[derive(Debug, Clone, Copy, PartialEq, Eq)]
pub enum FieldsModel {
    Unit,
    /// unnamed fields, by their number
    Unnamed(usize),
    Named,
}

/// An enum variant.
#[derive(Debug, Clone, PartialEq, Eq)]
pub struct VariantModel {
    pub attrs: Vec<AttrModel>,
    pub discriminant: DiscriminantModel,
    pub fields: FieldsModel,
}

/// Where in a list of attributes an error points to.
#[derive(Debug, Clone, Copy, PartialEq, Eq)]
pub enum AttrSpot {
    /// the macro call
    CallSite,
    /// the arguments of attribute `i`
    Attr(usize),
    /// the path of attribute `i`'s list
    ListPath(usize),
    /// entry `j` of attribute `i`'s list
    Entry(usize, usize),
}

/// Where the macros point an error to.
#[derive(Debug, Clone, Copy, PartialEq, Eq)]
pub enum Spot {
    /// the attributes of the type itself, or the macro call
    Item(AttrSpot),
    /// the identifier of variant `i`
    Variant(usize),
    /// the value of variant `i`
    Discriminant(usize),
    /// the fields of variant `i`
    VariantFields(usize),
    /// the attributes of variant `i`
    InVariant(usize, AttrSpot),
}

/// What is wrong.
#[derive(Debug, Clone, Copy, PartialEq, Eq)]
pub enum Problem {
    /// the attribute's arguments could not be read (the reader's own error
    /// tells more)
    ParseFailed,
    ExpectedFieldAttr,
    ExpectedFieldNumberFirst,
    ExpectedFieldNumber,
    ExpectedDefault,
    ZeroFieldNumber,
    ExpectedI32,
    ExpectedU16,
    NeedsFieldNumber,
    ExpectedInt,
    NoFieldsAllowed,
    NoDefaultVariant,
    SeveralDefaultVariants,
    ZeroNotAllowed,
    OnlyOneUnnamedField,
    NamedFieldsNotSupported,
    NoDefaultField,
    SeveralDefaultFields,
    NeedMessageAttr,
}

/// An error of a derive macro: where it points and what is wrong.
#[derive(Debug, Clone, Copy, PartialEq, Eq)]
pub struct DeriveError {
    pub spot: Spot,
    pub problem: Problem,
}

/// An error about a list of attributes.
#[derive(Debug, Clone, Copy, PartialEq, Eq)]
pub struct AttrError {
    pub spot: AttrSpot,
    pub problem: Problem,
}

/// The field number of a field or variant: attribute `fieldnum` holds the
/// number as its first entry; attribute `default`, if any, says `default`
/// as its second.
#[derive(Debug, Clone, Copy, PartialEq, Eq)]
pub struct FieldAttr {
    pub fieldnum: usize,
    pub default: Option<usize>,
}

pub open spec fn is_named(a: AttrModel, name: Seq<char>) -> bool {
    a.name@ == name
}

/// What is wrong with a `#[field(..)]` attribute at index `i`, if anything.
pub open spec fn field_attr_problem(a: AttrModel, i: usize) -> Option<AttrError> {
    match a.meta {
        MetaModel::Unparsable => Some(AttrError { spot: AttrSpot::Attr(i), problem: Problem::ParseFailed }),
        MetaModel::NotList => Some(
            AttrError { spot: AttrSpot::Attr(i), problem: Problem::ExpectedFieldAttr },
        ),
        MetaModel::List(entries) => if entries@.len() == 0 {
            Some(AttrError { spot: AttrSpot::ListPath(i), problem: Problem::ExpectedFieldNumberFirst })
        } else if !(entries@[0] is Int) {
            Some(AttrError { spot: AttrSpot::Entry(i, 0), problem: Problem::ExpectedFieldNumber })
        } else if entries@.len() > 1 && !(entries@[1] matches NestedModel::Ident(n) && n@
            == "default"@) {
            Some(AttrError { spot: AttrSpot::Entry(i, 1), problem: Problem::ExpectedDefault })
        } else {
            None
        },
    }
}

/// Whether a well formed `#[field(..)]` attribute says `default`.
pub open spec fn field_attr_has_default(a: AttrModel) -> bool {
    a.meta matches MetaModel::List(entries) && entries@.len() > 1
}

/// The attributes read one after the other: the first `#[field(..)]` that
/// is wrong ends the reading; otherwise the last one gives the number, and
/// the last one that says `default` the default.
pub open spec fn scan_field_attrs(attrs: Seq<AttrModel>) -> Result<
    (Option<usize>, Option<usize>),
    AttrError,
>
    decreases attrs.len(),
{
    if attrs.len() == 0 {
        Ok((None, None))
    } else {
        let i = (attrs.len() - 1) as usize;
        let a = attrs.last();
        match scan_field_attrs(attrs.drop_last()) {
            Err(e) => Err(e),
            Ok((num, default)) => if !is_named(a, "field"@) {
                Ok((num, default))
            } else {
                match field_attr_problem(a, i) {
                    Some(e) => Err(e),
                    None => Ok(
                        (Some(i), if field_attr_has_default(a) {
                            Some(i)
                        } else {
                            default
                        }),
                    ),
                }
            },
        }
    }
}

/// The digits of the number that attribute `a` gives.
pub open spec fn fieldnum_digits(a: AttrModel) -> Seq<char> {
    match a.meta {
        MetaModel::List(entries) => match entries@[0] {
            NestedModel::Int(d) => d@,
            _ => Seq::empty(),
        },
        _ => Seq::empty(),
    }
}

/// The field number that the attributes of a field or variant give.
pub open spec fn spec_field_attr(attrs: Seq<AttrModel>) -> Result<FieldAttr, AttrError> {
    match scan_field_attrs(attrs) {
        Err(e) => Err(e),
        Ok((None, _)) => Err(AttrError { spot: AttrSpot::CallSite, problem: Problem::ExpectedFieldAttr }),
        Ok((Some(k), default)) => if fieldnum_digits(attrs[k as int]) == "0"@ {
            Err(AttrError { spot: AttrSpot::Entry(k, 0), problem: Problem::ZeroFieldNumber })
        } else {
            Ok(FieldAttr { fieldnum: k, default })
        },
    }
}

proof fn lemma_scan_bounds(attrs: Seq<AttrModel>)
    requires
        attrs.len() <= usize::MAX,
    ensures
        scan_field_attrs(attrs) matches Ok((num, default)) ==> {
            &&& num matches Some(k) ==> k < attrs.len() && is_named(attrs[k as int], "field"@)
                && field_attr_problem(attrs[k as int], k) is None
            &&& default matches Some(d) ==> d < attrs.len()
        },
    decreases attrs.len(),
{
    if attrs.len() > 0 {
        lemma_scan_bounds(attrs.drop_last());
        assert forall|k: int| 0 <= k < attrs.len() - 1 implies attrs.drop_last()[k] == attrs[k] by {}
    }
}

/// Once a `#[field(..)]` attribute is wrong, the attributes after it do
/// not matter.
proof fn lemma_scan_error_stays(attrs: Seq<AttrModel>, n: int)
    requires
        0 <= n <= attrs.len(),
        scan_field_attrs(attrs.take(n)) is Err,
    ensures
        scan_field_attrs(attrs) == scan_field_attrs(attrs.take(n)),
    decreases attrs.len() - n,
{
    if n < attrs.len() {
        assert(attrs.take(n + 1).drop_last() =~= attrs.take(n));
        lemma_scan_error_stays(attrs, n + 1);
    } else {
        assert(attrs.take(n) =~= attrs);
    }
}

/// Whether attribute `a` is a `#[field(..)]` whose list starts with a
/// number.
pub open spec fn is_field_number_attr(a: AttrModel) -> bool {
    &&& a.name@ == "field"@
    &&& a.meta matches MetaModel::List(e) && e@.len() > 0 && e@[0] is Int
}

/// Whether attribute `a`'s list says `default` as its second entry.
pub open spec fn says_default(a: AttrModel) -> bool {
    a.meta matches MetaModel::List(e) && e@.len() > 1 && (e@[1] matches NestedModel::Ident(n)
        && n@ == "default"@)
}

/// Whether attribute `a`'s arguments are a list of more than one entry.
pub open spec fn has_second_entry(a: AttrModel) -> bool {
    a.meta matches MetaModel::List(e) && e@.len() > 1
}

proof fn lemma_scan_shape(attrs: Seq<AttrModel>)
    requires
        attrs.len() <= usize::MAX,
    ensures
        (forall|j: int| 0 <= j < attrs.len() ==> (#[trigger] attrs[j]).name@ != "field"@)
            ==> scan_field_attrs(attrs) == Ok::<_, AttrError>((None::<usize>, None::<usize>)),
        scan_field_attrs(attrs) matches Ok((num, default)) ==> {
            &&& num matches Some(k) ==> {
                &&& k < attrs.len()
                &&& is_field_number_attr(attrs[k as int])
                &&& forall|j: int| k < j < attrs.len() ==> (#[trigger] attrs[j]).name@ != "field"@
            }
            &&& num is None ==> forall|j: int|
                0 <= j < attrs.len() ==> (#[trigger] attrs[j]).name@ != "field"@
            &&& default matches Some(d) ==> {
                &&& num matches Some(k) && d <= k
                &&& attrs[d as int].name@ == "field"@
                &&& says_default(attrs[d as int])
                &&& forall|j: int| d < j < attrs.len() && (#[trigger] attrs[j]).name@ == "field"@ ==> !has_second_entry(attrs[j])
            }
            &&& default is None ==> forall|j: int|
                0 <= j < attrs.len() && (#[trigger] attrs[j]).name@ == "field"@ ==> !has_second_entry(attrs[j])
        },
    decreases attrs.len(),
{
    if attrs.len() > 0 {
        let prev = attrs.drop_last();
        lemma_scan_shape(prev);
        assert forall|j: int| 0 <= j < prev.len() implies prev[j] == attrs[j] by {}
    }
}

/// The field number is given by the last `#[field(..)]` attribute, which
/// starts with a number; a default by the last one that says `default`,
/// which is no later than it. Without any `#[field(..)]` attribute there is
/// no field number.
pub proof fn law_field_attr_is_last_field_attr(attrs: Seq<AttrModel>)
    requires
        attrs.len() <= usize::MAX,
    ensures
        spec_field_attr(attrs) matches Ok(fa) ==> {
            &&& fa.fieldnum < attrs.len()
            &&& is_field_number_attr(attrs[fa.fieldnum as int])
            &&& forall|j: int| fa.fieldnum < j < attrs.len() ==> (#[trigger] attrs[j]).name@ != "field"@
            &&& fa.default matches Some(d) ==> {
                &&& d <= fa.fieldnum
                &&& attrs[d as int].name@ == "field"@
                &&& says_default(attrs[d as int])
                &&& forall|j: int| d < j < attrs.len() && (#[trigger] attrs[j]).name@ == "field"@ ==> !has_second_entry(attrs[j])
            }
            &&& fa.default is None ==> forall|j: int|
                0 <= j < attrs.len() && (#[trigger] attrs[j]).name@ == "field"@ ==> !has_second_entry(attrs[j])
        },
        (forall|j: int| 0 <= j < attrs.len() ==> (#[trigger] attrs[j]).name@ != "field"@)
            ==> spec_field_attr(attrs) == Err::<FieldAttr, AttrError>(
            AttrError { spot: AttrSpot::CallSite, problem: Problem::ExpectedFieldAttr },
        ),
{
    lemma_scan_shape(attrs);
}

/// Reads the field number of a field or variant from its attributes.
pub fn field_attr(attrs: &Vec<AttrModel>) -> (r: Result<FieldAttr, AttrError>)
    ensures
        r == spec_field_attr(attrs@),
{
    let field = "field".to_owned();
    let default_name = "default".to_owned();
    let mut fieldnum: Option<usize> = None;
    let mut default: Option<usize> = None;
    let mut i: usize = 0;
    while i < attrs.len()
        invariant
            i <= attrs@.len(),
            field@ == "field"@,
            default_name@ == "default"@,
            scan_field_attrs(attrs@.take(i as int)) == Ok::<_, AttrError>((fieldnum, default)),
        decreases attrs@.len() - i,
    {
        let ghost before = attrs@.take(i as int);
        assert(attrs@.take(i + 1).drop_last() =~= before);
        let a = &attrs[i];
        if a.name == field {
            match &a.meta {
                MetaModel::Unparsable => {
                    proof {
                        lemma_scan_error_stays(attrs@, i + 1);
                    }
                    return Err(AttrError { spot: AttrSpot::Attr(i), problem: Problem::ParseFailed });
                },
                MetaModel::NotList => {
                    proof {
                        lemma_scan_error_stays(attrs@, i + 1);
                    }
                    return Err(AttrError { spot: AttrSpot::Attr(i), problem: Problem::ExpectedFieldAttr });
                },
                MetaModel::List(entries) => {
                    if entries.len() == 0 {
                        proof {
                            lemma_scan_error_stays(attrs@, i + 1);
                        }
                        return Err(
                            AttrError {
                                spot: AttrSpot::ListPath(i),
                                problem: Problem::ExpectedFieldNumberFirst,
                            },
                        );
                    }
                    match &entries[0] {
                        NestedModel::Int(_) => {},
                        _ => {
                            proof {
                                lemma_scan_error_stays(attrs@, i + 1);
                            }
                            return Err(
                                AttrError {
                                    spot: AttrSpot::Entry(i, 0),
                                    problem: Problem::ExpectedFieldNumber,
                                },
                            );
                        },
                    }
                    if entries.len() > 1 {
                        let is_default = match &entries[1] {
                            NestedModel::Ident(n) => *n == default_name,
                            _ => false,
                        };
                        if !is_default {
                            proof {
                                lemma_scan_error_stays(attrs@, i + 1);
                            }
                            return Err(
                                AttrError { spot: AttrSpot::Entry(i, 1), problem: Problem::ExpectedDefault },
                            );
                        }
                        default = Some(i);
                    }
                    fieldnum = Some(i);
                },
            }
        }
        i = i + 1;
    }
    assert(attrs@.take(i as int) =~= attrs@);
    proof {
        lemma_scan_bounds(attrs@);
    }
    match fieldnum {
        None => Err(AttrError { spot: AttrSpot::CallSite, problem: Problem::ExpectedFieldAttr }),
        Some(k) => {
            let zero = "0".to_owned();
            let is_zero = match &attrs[k].meta {
                MetaModel::List(entries) => match &entries[0] {
                    NestedModel::Int(d) => *d == zero,
                    _ => false,
                },
                _ => false,
            };
            if is_zero {
                Err(AttrError { spot: AttrSpot::Entry(k, 0), problem: Problem::ZeroFieldNumber })
            } else {
                Ok(FieldAttr { fieldnum: k, default })
            }
        },
    }
}

/// How the arguments of an attribute are read.
#[derive(Debug, Clone, Copy, PartialEq, Eq)]
pub enum ArgsRead {
    /// as a type path, like `#[repr(u16)]`
    TypePath,
    /// as one identifier, like `#[message(json)]`
    Ident,
}

pub open spec fn args_readable(a: AttrModel, how: ArgsRead) -> bool {
    match how {
        ArgsRead::TypePath => !(a.type_path is Unparsable),
        ArgsRead::Ident => a.ident is Some,
    }
}

/// The last attribute named `name` whose arguments are read in the way
/// `how`; the first one that cannot be read ends the reading.
pub open spec fn scan_args(attrs: Seq<AttrModel>, name: Seq<char>, how: ArgsRead) -> Result<
    Option<usize>,
    AttrError,
>
    decreases attrs.len(),
{
    if attrs.len() == 0 {
        Ok(None)
    } else {
        let i = (attrs.len() - 1) as usize;
        let a = attrs.last();
        match scan_args(attrs.drop_last(), name, how) {
            Err(e) => Err(e),
            Ok(found) => if !is_named(a, name) {
                Ok(found)
            } else if !args_readable(a, how) {
                Err(AttrError { spot: AttrSpot::Attr(i), problem: Problem::ParseFailed })
            } else {
                Ok(Some(i))
            },
        }
    }
}

proof fn lemma_scan_args_error_stays(attrs: Seq<AttrModel>, name: Seq<char>, how: ArgsRead, n: int)
    requires
        0 <= n <= attrs.len(),
        scan_args(attrs.take(n), name, how) is Err,
    ensures
        scan_args(attrs, name, how) == scan_args(attrs.take(n), name, how),
    decreases attrs.len() - n,
{
    if n < attrs.len() {
        assert(attrs.take(n + 1).drop_last() =~= attrs.take(n));
        lemma_scan_args_error_stays(attrs, name, how, n + 1);
    } else {
        assert(attrs.take(n) =~= attrs);
    }
}

proof fn lemma_scan_args_bounds(attrs: Seq<AttrModel>, name: Seq<char>, how: ArgsRead)
    requires
        attrs.len() <= usize::MAX,
    ensures
        scan_args(attrs, name, how) matches Ok(Some(k)) ==> k < attrs.len() && is_named(
            attrs[k as int],
            name,
        ) && args_readable(attrs[k as int], how),
    decreases attrs.len(),
{
    if attrs.len() > 0 {
        lemma_scan_args_bounds(attrs.drop_last(), name, how);
        assert forall|k: int| 0 <= k < attrs.len() - 1 implies attrs.drop_last()[k] == attrs[k] by {}
    }
}

/// Finds the last attribute named `name`, reading its arguments in the way
/// `how`.
fn last_attr(attrs: &Vec<AttrModel>, name: &str, how: ArgsRead) -> (r: Result<Option<usize>, AttrError>)
    ensures
        r == scan_args(attrs@, name@, how),
{
    let wanted = name.to_owned();
    let mut found: Option<usize> = None;
    let mut i: usize = 0;
    while i < attrs.len()
        invariant
            i <= attrs@.len(),
            wanted@ == name@,
            scan_args(attrs@.take(i as int), name@, how) == Ok::<_, AttrError>(found),
        decreases attrs@.len() - i,
    {
        assert(attrs@.take(i + 1).drop_last() =~= attrs@.take(i as int));
        let a = &attrs[i];
        if a.name == wanted {
            let readable = match how {
                ArgsRead::TypePath => match &a.type_path {
                    TypePathModel::Unparsable => false,
                    _ => true,
                },
                ArgsRead::Ident => a.ident.is_some(),
            };
            if !readable {
                proof {
                    lemma_scan_args_error_stays(attrs@, name@, how, i + 1);
                }
                return Err(AttrError { spot: AttrSpot::Attr(i), problem: Problem::ParseFailed });
            }
            found = Some(i);
        }
        i = i + 1;
    }
    assert(attrs@.take(i as int) =~= attrs@);
    Ok(found)
}

/// What the `#[repr(..)]` attributes of a type say: `Ok(false)` without
/// one, `Ok(true)` if the last one is `ty`, an error if it is another type.
pub open spec fn spec_repr_as(attrs: Seq<AttrModel>, ty: Seq<char>, wrong: Problem) -> Result<
    bool,
    AttrError,
> {
    match scan_args(attrs, "repr"@, ArgsRead::TypePath) {
        Err(e) => Err(e),
        Ok(None) => Ok(false),
        Ok(Some(k)) => if attrs[k as int].type_path matches TypePathModel::Ident(n) && n@ == ty {
            Ok(true)
        } else {
            Err(AttrError { spot: AttrSpot::Attr(k), problem: wrong })
        },
    }
}

fn repr_as(attrs: &Vec<AttrModel>, ty: &str, wrong: Problem) -> (r: Result<bool, AttrError>)
    ensures
        r == spec_repr_as(attrs@, ty@, wrong),
{
    let n = attrs.len();
    proof {
        lemma_scan_args_bounds(attrs@, "repr"@, ArgsRead::TypePath);
    }
    let ty = ty.to_owned();
    match last_attr(attrs, "repr", ArgsRead::TypePath)? {
        None => Ok(false),
        Some(k) => {
            let is_ty = match &attrs[k].type_path {
                TypePathModel::Ident(n) => *n == ty,
                _ => false,
            };
            if is_ty {
                Ok(true)
            } else {
                Err(AttrError { spot: AttrSpot::Attr(k), problem: wrong })
            }
        },
    }
}

/// Whether an enum is declared `#[repr(i32)]`.
pub fn repr_as_i32(attrs: &Vec<AttrModel>) -> (r: Result<bool, AttrError>)
    ensures
        r == spec_repr_as(attrs@, "i32"@, Problem::ExpectedI32),
{
    repr_as(attrs, "i32", Problem::ExpectedI32)
}

/// Whether an enum is declared `#[repr(u16)]`.
pub fn repr_as_u16(attrs: &Vec<AttrModel>) -> (r: Result<bool, AttrError>)
    ensures
        r == spec_repr_as(attrs@, "u16"@, Problem::ExpectedU16),
{
    repr_as(attrs, "u16", Problem::ExpectedU16)
}

/// The attribute `#[message(module)]` that names how a type is turned into
/// a message: the last one counts.
pub fn message_attr(attrs: &Vec<AttrModel>) -> (r: Result<usize, AttrError>)
    ensures
        match scan_args(attrs@, "message"@, ArgsRead::Ident) {
            Err(e) => r == Err::<usize, AttrError>(e),
            Ok(None) => r == Err::<usize, AttrError>(
                AttrError { spot: AttrSpot::CallSite, problem: Problem::NeedMessageAttr },
            ),
            Ok(Some(k)) => r == Ok::<usize, AttrError>(k),
        },
{
    match last_attr(attrs, "message", ArgsRead::Ident)? {
        Some(k) => Ok(k),
        None => Err(AttrError { spot: AttrSpot::CallSite, problem: Problem::NeedMessageAttr }),
    }
}

pub open spec fn is_zero_variant(v: VariantModel) -> bool {
    v.discriminant matches DiscriminantModel::Int(d) && d@ == "0"@
}

/// What is wrong with variant `i` of an enum without fields, if anything.
pub open spec fn plain_variant_problem(v: VariantModel, i: usize) -> Option<DeriveError> {
    match v.discriminant {
        DiscriminantModel::Missing => Some(
            DeriveError { spot: Spot::Variant(i), problem: Problem::NeedsFieldNumber },
        ),
        DiscriminantModel::Other => Some(
            DeriveError { spot: Spot::Discriminant(i), problem: Problem::ExpectedInt },
        ),
        DiscriminantModel::Int(_) => if !(v.fields is Unit) {
            Some(DeriveError { spot: Spot::VariantFields(i), problem: Problem::NoFieldsAllowed })
        } else {
            None
        },
    }
}

/// The first variant of an enum without fields that is wrong.
pub open spec fn first_plain_variant_problem(vs: Seq<VariantModel>) -> Option<DeriveError>
    decreases vs.len(),
{
    if vs.len() == 0 {
        None
    } else {
        match first_plain_variant_problem(vs.drop_last()) {
            Some(e) => Some(e),
            None => plain_variant_problem(vs.last(), (vs.len() - 1) as usize),
        }
    }
}

/// How many variants have the value 0.
pub open spec fn zero_variants(vs: Seq<VariantModel>) -> nat
    decreases vs.len(),
{
    if vs.len() == 0 {
        0
    } else {
        zero_variants(vs.drop_last()) + if is_zero_variant(vs.last()) {
            1nat
        } else {
            0nat
        }
    }
}

/// The indices `0..n` without `d`, in order.
pub open spec fn indices_without(n: nat, d: usize) -> Seq<usize> {
    Seq::new((n - 1) as nat, |j: int| if j < d { j as usize } else { (j + 1) as usize })
}

proof fn lemma_zero_variants_take(vs: Seq<VariantModel>, i: int)
    requires
        0 <= i < vs.len(),
    ensures
        zero_variants(vs.take(i + 1)) == zero_variants(vs.take(i)) + if is_zero_variant(vs[i]) {
            1nat
        } else {
            0nat
        },
{
    assert(vs.take(i + 1).drop_last() =~= vs.take(i));
}

proof fn lemma_problem_stays(vs: Seq<VariantModel>, n: int)
    requires
        0 <= n <= vs.len(),
        first_plain_variant_problem(vs.take(n)) is Some,
    ensures
        first_plain_variant_problem(vs) == first_plain_variant_problem(vs.take(n)),
    decreases vs.len() - n,
{
    if n < vs.len() {
        assert(vs.take(n + 1).drop_last() =~= vs.take(n));
        lemma_problem_stays(vs, n + 1);
    } else {
        assert(vs.take(n) =~= vs);
    }
}

/// The variants of a message enum without fields: every variant needs an
/// integer value and no fields, and exactly one has the value 0, the
/// default. Returns the indices of the other variants, in order, and the
/// index of the default.
pub fn variants_no_fields(vs: &Vec<VariantModel>) -> (r: Result<(Vec<usize>, usize), DeriveError>)
    ensures
        match first_plain_variant_problem(vs@) {
            Some(e) => r == Err::<(Vec<usize>, usize), DeriveError>(e),
            None => if zero_variants(vs@) == 0 {
                r == Err::<(Vec<usize>, usize), DeriveError>(
                    DeriveError { spot: Spot::Item(AttrSpot::CallSite), problem: Problem::NoDefaultVariant },
                )
            } else if zero_variants(vs@) > 1 {
                r == Err::<(Vec<usize>, usize), DeriveError>(
                    DeriveError {
                        spot: Spot::Item(AttrSpot::CallSite),
                        problem: Problem::SeveralDefaultVariants,
                    },
                )
            } else {
                r matches Ok((others, d)) && d < vs@.len() && is_zero_variant(vs@[d as int])
                    && others@ == indices_without(vs@.len(), d)
            },
        },
{
    let zero = "0".to_owned();
    let mut default: Option<usize> = None;
    let mut zeros: usize = 0;
    let mut i: usize = 0;
    while i < vs.len()
        invariant
            i <= vs@.len(),
            zero@ == "0"@,
            first_plain_variant_problem(vs@.take(i as int)) is None,
            zeros == zero_variants(vs@.take(i as int)),
            zeros <= i,
            zeros == 0 <==> default is None,
            default matches Some(d) ==> d < i && is_zero_variant(vs@[d as int]),
            zeros == 1 ==> forall|j: int| 0 <= j < i && is_zero_variant(#[trigger] vs@[j]) ==> default == Some(j as usize),
            zeros == 0 ==> forall|j: int| 0 <= j < i ==> !is_zero_variant(#[trigger] vs@[j]),
        decreases vs@.len() - i,
    {
        proof {
            assert(vs@.take(i + 1).drop_last() =~= vs@.take(i as int));
            lemma_zero_variants_take(vs@, i as int);
        }
        let v = &vs[i];
        let is_zero = match &v.discriminant {
            DiscriminantModel::Missing => {
                proof {
                    lemma_problem_stays(vs@, i + 1);
                }
                return Err(DeriveError { spot: Spot::Variant(i), problem: Problem::NeedsFieldNumber });
            },
            DiscriminantModel::Other => {
                proof {
                    lemma_problem_stays(vs@, i + 1);
                }
                return Err(DeriveError { spot: Spot::Discriminant(i), problem: Problem::ExpectedInt });
            },
            DiscriminantModel::Int(d) => *d == zero,
        };
        match v.fields {
            FieldsModel::Unit => {},
            _ => {
                proof {
                    lemma_problem_stays(vs@, i + 1);
                }
                return Err(DeriveError { spot: Spot::VariantFields(i), problem: Problem::NoFieldsAllowed });
            },
        }
        if is_zero {
            if default.is_none() {
                default = Some(i);
            }
            zeros = zeros + 1;
        }
        i = i + 1;
    }
    assert(vs@.take(i as int) =~= vs@);
    let d = match default {
        None => {
            return Err(DeriveError { spot: Spot::Item(AttrSpot::CallSite), problem: Problem::NoDefaultVariant });
        },
        Some(d) => d,
    };
    if zeros > 1 {
        return Err(
            DeriveError { spot: Spot::Item(AttrSpot::CallSite), problem: Problem::SeveralDefaultVariants },
        );
    }
    let mut others: Vec<usize> = Vec::new();
    let mut j: usize = 0;
    while j < vs.len()
        invariant
            j <= vs@.len(),
            d < vs@.len(),
            others@ == indices_without(vs@.len(), d).take(if j <= d { j as int } else { j - 1 }),
        decreases vs@.len() - j,
    {
        if j != d {
            others.push(j);
            assert(others@ =~= indices_without(vs@.len(), d).take(if j + 1 <= d { j + 1 } else { j as int }));
        } else {
            assert(others@ =~= indices_without(vs@.len(), d).take(j as int));
        }
        j = j + 1;
    }
    assert(others@ =~= indices_without(vs@.len(), d));
    Ok((others, d))
}

/// What is wrong with variant `i` of an action enum, if anything: every
/// variant needs an integer value other than 0 and no fields.
pub open spec fn action_variant_problem(v: VariantModel, i: usize) -> Option<DeriveError> {
    match v.discriminant {
        DiscriminantModel::Missing => Some(
            DeriveError { spot: Spot::Variant(i), problem: Problem::NeedsFieldNumber },
        ),
        DiscriminantModel::Other => Some(
            DeriveError { spot: Spot::Discriminant(i), problem: Problem::ExpectedInt },
        ),
        DiscriminantModel::Int(d) => if d@ == "0"@ {
            Some(DeriveError { spot: Spot::Item(AttrSpot::CallSite), problem: Problem::ZeroNotAllowed })
        } else if !(v.fields is Unit) {
            Some(DeriveError { spot: Spot::VariantFields(i), problem: Problem::NoFieldsAllowed })
        } else {
            None
        },
    }
}

/// The first variant of an action enum that is wrong.
pub open spec fn first_action_variant_problem(vs: Seq<VariantModel>) -> Option<DeriveError>
    decreases vs.len(),
{
    if vs.len() == 0 {
        None
    } else {
        match first_action_variant_problem(vs.drop_last()) {
            Some(e) => Some(e),
            None => action_variant_problem(vs.last(), (vs.len() - 1) as usize),
        }
    }
}

proof fn lemma_action_problem_stays(vs: Seq<VariantModel>, n: int)
    requires
        0 <= n <= vs.len(),
        first_action_variant_problem(vs.take(n)) is Some,
    ensures
        first_action_variant_problem(vs) == first_action_variant_problem(vs.take(n)),
    decreases vs.len() - n,
{
    if n < vs.len() {
        assert(vs.take(n + 1).drop_last() =~= vs.take(n));
        lemma_action_problem_stays(vs, n + 1);
    } else {
        assert(vs.take(n) =~= vs);
    }
}

/// Checks the variants of an action enum; each variant stands for its
/// value.
pub fn action_variants(vs: &Vec<VariantModel>) -> (r: Result<(), DeriveError>)
    ensures
        match first_action_variant_problem(vs@) {
            Some(e) => r == Err::<(), DeriveError>(e),
            None => r is Ok,
        },
{
    let zero = "0".to_owned();
    let mut i: usize = 0;
    while i < vs.len()
        invariant
            i <= vs@.len(),
            zero@ == "0"@,
            first_action_variant_problem(vs@.take(i as int)) is None,
        decreases vs@.len() - i,
    {
        assert(vs@.take(i + 1).drop_last() =~= vs@.take(i as int));
        let v = &vs[i];
        let problem = match &v.discriminant {
            DiscriminantModel::Missing => Some(
                DeriveError { spot: Spot::Variant(i), problem: Problem::NeedsFieldNumber },
            ),
            DiscriminantModel::Other => Some(
                DeriveError { spot: Spot::Discriminant(i), problem: Problem::ExpectedInt },
            ),
            DiscriminantModel::Int(d) => if *d == zero {
                Some(
                    DeriveError {
                        spot: Spot::Item(AttrSpot::CallSite),
                        problem: Problem::ZeroNotAllowed,
                    },
                )
            } else {
                match v.fields {
                    FieldsModel::Unit => None,
                    _ => Some(
                        DeriveError { spot: Spot::VariantFields(i), problem: Problem::NoFieldsAllowed },
                    ),
                }
            },
        };
        if let Some(e) = problem {
            proof {
                lemma_action_problem_stays(vs@, i + 1);
            }
            return Err(e);
        }
        i = i + 1;
    }
    assert(vs@.take(i as int) =~= vs@);
    Ok(())
}

/// An error about the attributes of variant `i`.
pub open spec fn in_variant(i: usize, e: AttrError) -> DeriveError {
    DeriveError { spot: Spot::InVariant(i, e.spot), problem: e.problem }
}

/// What is wrong with variant `i` of a message enum with fields, if
/// anything: it needs a field number and at most one unnamed field.
pub open spec fn field_variant_problem(v: VariantModel, i: usize) -> Option<DeriveError> {
    match spec_field_attr(v.attrs@) {
        Err(e) => Some(in_variant(i, e)),
        Ok(_) => match v.fields {
            FieldsModel::Unnamed(n) => if n != 1 {
                Some(DeriveError { spot: Spot::VariantFields(i), problem: Problem::OnlyOneUnnamedField })
            } else {
                None
            },
            FieldsModel::Unit => None,
            FieldsModel::Named => Some(
                DeriveError { spot: Spot::VariantFields(i), problem: Problem::NamedFieldsNotSupported },
            ),
        },
    }
}

/// The first variant of a message enum with fields that is wrong.
pub open spec fn first_field_variant_problem(vs: Seq<VariantModel>) -> Option<DeriveError>
    decreases vs.len(),
{
    if vs.len() == 0 {
        None
    } else {
        match first_field_variant_problem(vs.drop_last()) {
            Some(e) => Some(e),
            None => field_variant_problem(vs.last(), (vs.len() - 1) as usize),
        }
    }
}

/// Whether the attributes of a variant mark it as the default.
pub open spec fn is_default_variant(v: VariantModel) -> bool {
    spec_field_attr(v.attrs@) matches Ok(fa) && fa.default is Some
}

/// How many variants are marked as the default.
pub open spec fn default_variants(vs: Seq<VariantModel>) -> nat
    decreases vs.len(),
{
    if vs.len() == 0 {
        0
    } else {
        default_variants(vs.drop_last()) + if is_default_variant(vs.last()) {
            1nat
        } else {
            0nat
        }
    }
}

proof fn lemma_field_problem_stays(vs: Seq<VariantModel>, n: int)
    requires
        0 <= n <= vs.len(),
        first_field_variant_problem(vs.take(n)) is Some,
    ensures
        first_field_variant_problem(vs) == first_field_variant_problem(vs.take(n)),
    decreases vs.len() - n,
{
    if n < vs.len() {
        assert(vs.take(n + 1).drop_last() =~= vs.take(n));
        lemma_field_problem_stays(vs, n + 1);
    } else {
        assert(vs.take(n) =~= vs);
    }
}

/// The variants of a message enum with fields: every variant needs a field
/// number and at most one unnamed field, and exactly one is marked as the
/// default. Returns the field number of every variant and whether it has a
/// field.
pub fn variants_with_fields(vs: &Vec<VariantModel>) -> (r: Result<Vec<(FieldAttr, bool)>, DeriveError>)
    ensures
        match first_field_variant_problem(vs@) {
            Some(e) => r == Err::<Vec<(FieldAttr, bool)>, DeriveError>(e),
            None => if default_variants(vs@) == 0 {
                r == Err::<Vec<(FieldAttr, bool)>, DeriveError>(
                    DeriveError { spot: Spot::Item(AttrSpot::CallSite), problem: Problem::NoDefaultField },
                )
            } else if default_variants(vs@) > 1 {
                r == Err::<Vec<(FieldAttr, bool)>, DeriveError>(
                    DeriveError {
                        spot: Spot::Item(AttrSpot::CallSite),
                        problem: Problem::SeveralDefaultFields,
                    },
                )
            } else {
                r matches Ok(out) && out@.len() == vs@.len() && forall|j: int|
                    0 <= j < vs@.len() ==> spec_field_attr(#[trigger] vs@[j].attrs@) == Ok::<
                        FieldAttr,
                        AttrError,
                    >(out@[j].0) && out@[j].1 == (vs@[j].fields is Unnamed)
            },
        },
{
    let mut out: Vec<(FieldAttr, bool)> = Vec::new();
    let mut defaults: usize = 0;
    let mut i: usize = 0;
    while i < vs.len()
        invariant
            i <= vs@.len(),
            out@.len() == i,
            first_field_variant_problem(vs@.take(i as int)) is None,
            defaults == default_variants(vs@.take(i as int)),
            defaults <= i,
            forall|j: int|
                0 <= j < i ==> spec_field_attr(#[trigger] vs@[j].attrs@) == Ok::<FieldAttr, AttrError>(
                    out@[j].0,
                ) && out@[j].1 == (vs@[j].fields is Unnamed),
        decreases vs@.len() - i,
    {
        assert(vs@.take(i + 1).drop_last() =~= vs@.take(i as int));
        let v = &vs[i];
        let attr = match field_attr(&v.attrs) {
            Ok(a) => a,
            Err(e) => {
                proof {
                    lemma_field_problem_stays(vs@, i + 1);
                }
                return Err(DeriveError { spot: Spot::InVariant(i, e.spot), problem: e.problem });
            },
        };
        let has_field = match v.fields {
            FieldsModel::Unnamed(n) => {
                if n != 1 {
                    proof {
                        lemma_field_problem_stays(vs@, i + 1);
                    }
                    return Err(
                        DeriveError { spot: Spot::VariantFields(i), problem: Problem::OnlyOneUnnamedField },
                    );
                }
                true
            },
            FieldsModel::Unit => false,
            FieldsModel::Named => {
                proof {
                    lemma_field_problem_stays(vs@, i + 1);
                }
                return Err(
                    DeriveError { spot: Spot::VariantFields(i), problem: Problem::NamedFieldsNotSupported },
                );
            },
        };
        if attr.default.is_some() {
            defaults = defaults + 1;
        }
        out.push((attr, has_field));
        i = i + 1;
    }
    assert(vs@.take(i as int) =~= vs@);
    if defaults == 0 {
        Err(DeriveError { spot: Spot::Item(AttrSpot::CallSite), problem: Problem::NoDefaultField })
    } else if defaults > 1 {
        Err(DeriveError { spot: Spot::Item(AttrSpot::CallSite), problem: Problem::SeveralDefaultFields })
    } else {
        Ok(out)
    }
}

proof fn lemma_no_plain_problem(vs: Seq<VariantModel>)
    requires
        vs.len() <= usize::MAX,
    ensures
        first_plain_variant_problem(vs) is None <==> forall|i: int|
            0 <= i < vs.len() ==> plain_variant_problem(#[trigger] vs[i], i as usize) is None,
        zero_variants(vs) == 0 <==> forall|i: int| 0 <= i < vs.len() ==> !is_zero_variant(#[trigger] vs[i]),
        zero_variants(vs) == 1 ==> exists|d: int|
            0 <= d < vs.len() && is_zero_variant(vs[d]) && forall|j: int|
                0 <= j < vs.len() && j != d ==> !is_zero_variant(#[trigger] vs[j]),
    decreases vs.len(),
{
    if vs.len() > 0 {
        let prev = vs.drop_last();
        lemma_no_plain_problem(prev);
        assert forall|i: int| 0 <= i < prev.len() implies prev[i] == vs[i] by {}
        let last = vs.len() - 1;
        if zero_variants(vs) == 1 && is_zero_variant(vs[last]) {
            assert(forall|j: int| 0 <= j < prev.len() ==> !is_zero_variant(#[trigger] prev[j]));
            assert(is_zero_variant(vs[last]));
        }
        if zero_variants(vs) == 1 && !is_zero_variant(vs[last]) {
            let d = choose|d: int|
                0 <= d < prev.len() && is_zero_variant(prev[d]) && forall|j: int|
                    0 <= j < prev.len() && j != d ==> !is_zero_variant(#[trigger] prev[j]);
            assert(is_zero_variant(vs[d]));
        }
    }
}

/// The variants of a message enum without fields are taken exactly when
/// every variant has an integer value and no fields, and one variant, and
/// only one, has the value 0: that one is the default and every other
/// variant comes in the list of the others, in order.
pub proof fn law_plain_variants(vs: Seq<VariantModel>)
    requires
        vs.len() <= usize::MAX,
    ensures
        first_plain_variant_problem(vs) is None <==> forall|i: int|
            0 <= i < vs.len() ==> (#[trigger] vs[i]).discriminant is Int && vs[i].fields is Unit,
        (first_plain_variant_problem(vs) is None && zero_variants(vs) == 1) <==> (
        (forall|i: int|
            0 <= i < vs.len() ==> (#[trigger] vs[i]).discriminant is Int && vs[i].fields is Unit)
            && exists|d: int|
            0 <= d < vs.len() && is_zero_variant(vs[d]) && forall|j: int|
                0 <= j < vs.len() && j != d ==> !is_zero_variant(#[trigger] vs[j])),
        forall|d: usize|
            d < vs.len() && is_zero_variant(vs[d as int]) ==> forall|j: int|
                0 <= j < indices_without(vs.len(), d).len() ==> #[trigger] indices_without(vs.len(), d)[j]
                    != d && indices_without(vs.len(), d)[j] < vs.len(),
{
    lemma_no_plain_problem(vs);
    if exists|d: int|
        0 <= d < vs.len() && is_zero_variant(vs[d]) && forall|j: int|
            0 <= j < vs.len() && j != d ==> !is_zero_variant(#[trigger] vs[j]) {
        let d = choose|d: int|
            0 <= d < vs.len() && is_zero_variant(vs[d]) && forall|j: int|
                0 <= j < vs.len() && j != d ==> !is_zero_variant(#[trigger] vs[j]);
        lemma_zero_count_one(vs, d);
    }
}

proof fn lemma_zero_count_one(vs: Seq<VariantModel>, d: int)
    requires
        0 <= d < vs.len(),
        is_zero_variant(vs[d]),
        forall|j: int| 0 <= j < vs.len() && j != d ==> !is_zero_variant(#[trigger] vs[j]),
    ensures
        zero_variants(vs) == 1,
    decreases vs.len(),
{
    let prev = vs.drop_last();
    assert forall|i: int| 0 <= i < prev.len() implies prev[i] == vs[i] by {}
    if d == vs.len() - 1 {
        lemma_zero_count_none(prev);
    } else {
        lemma_zero_count_one(prev, d);
    }
}

proof fn lemma_zero_count_none(vs: Seq<VariantModel>)
    requires
        forall|j: int| 0 <= j < vs.len() ==> !is_zero_variant(#[trigger] vs[j]),
    ensures
        zero_variants(vs) == 0,
    decreases vs.len(),
{
    if vs.len() > 0 {
        let prev = vs.drop_last();
        assert forall|i: int| 0 <= i < prev.len() implies !is_zero_variant(#[trigger] prev[i]) by {
            assert(prev[i] == vs[i]);
        }
        lemma_zero_count_none(prev);
    }
}

proof fn lemma_no_action_problem(vs: Seq<VariantModel>)
    requires
        vs.len() <= usize::MAX,
    ensures
        first_action_variant_problem(vs) is None <==> forall|i: int|
            0 <= i < vs.len() ==> action_variant_problem(#[trigger] vs[i], i as usize) is None,
    decreases vs.len(),
{
    if vs.len() > 0 {
        let prev = vs.drop_last();
        lemma_no_action_problem(prev);
        assert forall|i: int| 0 <= i < prev.len() implies prev[i] == vs[i] by {}
    }
}

/// The variants of an action enum are taken exactly when every variant has
/// an integer value other than 0 and no fields.
pub proof fn law_action_variants(vs: Seq<VariantModel>)
    requires
        vs.len() <= usize::MAX,
    ensures
        first_action_variant_problem(vs) is None <==> forall|i: int|
            0 <= i < vs.len() ==> ((#[trigger] vs[i]).discriminant matches DiscriminantModel::Int(d)
                && d@ != "0"@) && vs[i].fields is Unit,
{
    lemma_no_action_problem(vs);
    assert((forall|i: int|
        0 <= i < vs.len() ==> action_variant_problem(#[trigger] vs[i], i as usize) is None) <==> (
    forall|i: int|
        0 <= i < vs.len() ==> ((#[trigger] vs[i]).discriminant matches DiscriminantModel::Int(d)
            && d@ != "0"@) && vs[i].fields is Unit));
}

proof fn lemma_no_field_variant_problem(vs: Seq<VariantModel>)
    requires
        vs.len() <= usize::MAX,
    ensures
        first_field_variant_problem(vs) is None <==> forall|i: int|
            0 <= i < vs.len() ==> field_variant_problem(#[trigger] vs[i], i as usize) is None,
    decreases vs.len(),
{
    if vs.len() > 0 {
        let prev = vs.drop_last();
        lemma_no_field_variant_problem(prev);
        assert forall|i: int| 0 <= i < prev.len() implies prev[i] == vs[i] by {}
    }
}

/// The variants of a message enum with fields are taken exactly when every
/// variant has a field number and no named fields, and at most one unnamed
/// field.
pub proof fn law_field_variants(vs: Seq<VariantModel>)
    requires
        vs.len() <= usize::MAX,
    ensures
        first_field_variant_problem(vs) is None <==> forall|i: int|
            0 <= i < vs.len() ==> spec_field_attr((#[trigger] vs[i]).attrs@) is Ok && !(
            vs[i].fields is Named) && !(vs[i].fields matches FieldsModel::Unnamed(n) && n != 1),
{
    lemma_no_field_variant_problem(vs);
    assert((forall|i: int|
        0 <= i < vs.len() ==> field_variant_problem(#[trigger] vs[i], i as usize) is None) <==> (
    forall|i: int|
        0 <= i < vs.len() ==> spec_field_attr((#[trigger] vs[i]).attrs@) is Ok && !(
        vs[i].fields is Named) && !(vs[i].fields matches FieldsModel::Unnamed(n) && n != 1)));
}

proof fn lemma_scan_args_shape(attrs: Seq<AttrModel>, name: Seq<char>, how: ArgsRead)
    requires
        attrs.len() <= usize::MAX,
    ensures
        scan_args(attrs, name, how) matches Ok(Some(k)) ==> {
            &&& k < attrs.len()
            &&& attrs[k as int].name@ == name
            &&& args_readable(attrs[k as int], how)
            &&& forall|j: int| k < j < attrs.len() ==> (#[trigger] attrs[j]).name@ != name
        },
        scan_args(attrs, name, how) == Ok::<Option<usize>, AttrError>(None) <==> forall|j: int|
            0 <= j < attrs.len() ==> (#[trigger] attrs[j]).name@ != name,
        scan_args(attrs, name, how) matches Err(e) ==> exists|i: int|
            0 <= i < attrs.len() && (#[trigger] attrs[i]).name@ == name && !args_readable(attrs[i], how)
                && e == (AttrError { spot: AttrSpot::Attr(i as usize), problem: Problem::ParseFailed }),
    decreases attrs.len(),
{
    if attrs.len() > 0 {
        let prev = attrs.drop_last();
        lemma_scan_args_shape(prev, name, how);
        assert forall|i: int| 0 <= i < prev.len() implies prev[i] == attrs[i] by {}
        if let Err(e) = scan_args(prev, name, how) {
            let i = choose|i: int|
                0 <= i < prev.len() && (#[trigger] prev[i]).name@ == name && !args_readable(prev[i], how)
                    && e == (AttrError { spot: AttrSpot::Attr(i as usize), problem: Problem::ParseFailed });
            assert(attrs[i] == prev[i]);
        }
    }
}

/// `#[repr(..)]` is read from the last `repr` attribute: without one the
/// type has no repr, with one naming `ty` it is taken, with one naming
/// anything else it is refused at that attribute.
pub proof fn law_repr_is_last_repr(attrs: Seq<AttrModel>, ty: Seq<char>, wrong: Problem)
    requires
        attrs.len() <= usize::MAX,
    ensures
        (forall|j: int| 0 <= j < attrs.len() ==> (#[trigger] attrs[j]).name@ != "repr"@)
            ==> spec_repr_as(attrs, ty, wrong) == Ok::<bool, AttrError>(false),
        forall|k: int|
            0 <= k < attrs.len() && (#[trigger] attrs[k]).name@ == "repr"@ && (forall|j: int|
                0 <= j < attrs.len() && (#[trigger] attrs[j]).name@ == "repr"@ ==> !(attrs[j].type_path is Unparsable))
                && (forall|j: int| k < j < attrs.len() ==> (#[trigger] attrs[j]).name@ != "repr"@)
                ==> spec_repr_as(attrs, ty, wrong) == if attrs[k].type_path matches TypePathModel::Ident(n) && n@ == ty {
                Ok::<bool, AttrError>(true)
            } else {
                Err(AttrError { spot: AttrSpot::Attr(k as usize), problem: wrong })
            },
{
    lemma_scan_args_shape(attrs, "repr"@, ArgsRead::TypePath);
}

/// The `#[message(..)]` attribute that counts is the last one: its index
/// is returned, and without any the type is refused.
pub proof fn law_message_attr_is_last(attrs: Seq<AttrModel>)
    requires
        attrs.len() <= usize::MAX,
    ensures
        scan_args(attrs, "message"@, ArgsRead::Ident) matches Ok(Some(k)) ==> {
            &&& k < attrs.len()
            &&& attrs[k as int].name@ == "message"@
            &&& attrs[k as int].ident is Some
            &&& forall|j: int| k < j < attrs.len() ==> (#[trigger] attrs[j]).name@ != "message"@
        },
        scan_args(attrs, "message"@, ArgsRead::Ident) == Ok::<Option<usize>, AttrError>(None)
            <==> forall|j: int| 0 <= j < attrs.len() ==> (#[trigger] attrs[j]).name@ != "message"@,
{
    lemma_scan_args_shape(attrs, "message"@, ArgsRead::Ident);
}

/// The message of an error, as the macros print it.
pub open spec fn problem_message(p: Problem) -> Seq<char> {
    match p {
        Problem::ParseFailed => "could not parse attribute"@,
        Problem::ExpectedFieldAttr => "expected #[field(..)]"@,
        Problem::ExpectedFieldNumberFirst => "expected field number first"@,
        Problem::ExpectedFieldNumber => "expected the field number"@,
        Problem::ExpectedDefault => "expected default"@,
        Problem::ZeroFieldNumber => "numbers need to be > 0"@,
        Problem::ExpectedI32 => "expected i32"@,
        Problem::ExpectedU16 => "expected u16"@,
        Problem::NeedsFieldNumber => "needs to have a field number `Ident = x`"@,
        Problem::ExpectedInt => "expected = int"@,
        Problem::NoFieldsAllowed => "no fields allowed"@,
        Problem::NoDefaultVariant => "a fields needs to be the default"@,
        Problem::SeveralDefaultVariants => "only one variant can be default = 0"@,
        Problem::ZeroNotAllowed => "zero not allowed"@,
        Problem::OnlyOneUnnamedField => "only one unnamed field allowed"@,
        Problem::NamedFieldsNotSupported => "named fields not supported"@,
        Problem::NoDefaultField => "one variant needs to the default have #[field(num, default)]"@,
        Problem::SeveralDefaultFields => "only one variant can be the default"@,
        Problem::NeedMessageAttr => "need an attribute #[message(..)]"@,
    }
}

impl Problem {
    /// The message of the error, as the macros print it.
    pub fn message(&self) -> (r: &'static str)
        ensures
            r@ == problem_message(*self),
    {
        match self {
            Problem::ParseFailed => "could not parse attribute",
            Problem::ExpectedFieldAttr => "expected #[field(..)]",
            Problem::ExpectedFieldNumberFirst => "expected field number first",
            Problem::ExpectedFieldNumber => "expected the field number",
            Problem::ExpectedDefault => "expected default",
            Problem::ZeroFieldNumber => "numbers need to be > 0",
            Problem::ExpectedI32 => "expected i32",
            Problem::ExpectedU16 => "expected u16",
            Problem::NeedsFieldNumber => "needs to have a field number `Ident = x`",
            Problem::ExpectedInt => "expected = int",
            Problem::NoFieldsAllowed => "no fields allowed",
            Problem::NoDefaultVariant => "a fields needs to be the default",
            Problem::SeveralDefaultVariants => "only one variant can be default = 0",
            Problem::ZeroNotAllowed => "zero not allowed",
            Problem::OnlyOneUnnamedField => "only one unnamed field allowed",
            Problem::NamedFieldsNotSupported => "named fields not supported",
            Problem::NoDefaultField => "one variant needs to the default have #[field(num, default)]",
            Problem::SeveralDefaultFields => "only one variant can be the default",
            Problem::NeedMessageAttr => "need an attribute #[message(..)]",
        }
    }
}

} // verus!
