//! The rules of `#[derive(IntoErrorResponse)]`: how `#[response(..)]`
//! attributes are read, and which code and text each variant answers with.
//! Expressions are held as their source text.

use vstd::prelude::*;

verus! {

/// One `key = value` option inside `#[response(..)]`.
pub struct ResponseOption {
    pub key: String,
    /// The value's source text.
    pub value: String,
    /// Whether the value is a string literal.
    pub is_str_literal: bool,
}

/// An attribute on a type or a variant: its path and the options inside it.
pub struct Attribute {
    pub path: String,
    pub options: Vec<ResponseOption>,
}

/// The code and the text expression that attributes name, where they do.
pub struct ResponseAttrs {
    pub code: Option<String>,
    pub message: Option<String>,
}

/// An option as plain text: key, value, whether the value is a literal.
pub type OptionView = (Seq<char>, Seq<char>, bool);

/// The text of an optional expression.
pub open spec fn opt_text(e: Option<String>) -> Option<Seq<char>> {
    match e {
        Some(s) => Some(s@),
        None => None,
    }
}

/// The text view of an option.
pub open spec fn option_view(o: ResponseOption) -> OptionView {
    (o.key@, o.value@, o.is_str_literal)
}

/// The options of `attrs` that stand inside `response` attributes, in order.
pub open spec fn response_options(attrs: Seq<Attribute>) -> Seq<OptionView>
    decreases attrs.len(),
{
    if attrs.len() == 0 {
        Seq::empty()
    } else {
        let earlier = response_options(attrs.drop_last());
        if attrs.last().path@ == "response"@ {
            earlier + attrs.last().options@.map_values(|o: ResponseOption| option_view(o))
        } else {
            earlier
        }
    }
}

/// The expression that turns a message value into the answer's text: a
/// literal is converted as it stands, any other expression in brackets.
pub open spec fn message_expr(value: Seq<char>, is_str_literal: bool) -> Seq<char> {
    if is_str_literal {
        value + ".to_string()"@
    } else {
        "("@ + value + ").to_string()"@
    }
}

/// The error for an option that is neither `code` nor `message`.
pub open spec fn unknown_option_error(key: Seq<char>) -> Seq<char> {
    "unknown error_response option `"@ + key + "`; expected `code` or `message`"@
}

/// The code and text expressions that `options` name, read in order, a
/// later option overriding an earlier one; the first unknown key is an
/// error.
pub open spec fn read_options(options: Seq<OptionView>) -> Result<
    (Option<Seq<char>>, Option<Seq<char>>),
    Seq<char>,
>
    decreases options.len(),
{
    if options.len() == 0 {
        Ok((None, None))
    } else {
        match read_options(options.drop_last()) {
            Err(e) => Err(e),
            Ok((code, message)) => {
                let (key, value, lit) = options.last();
                if key == "code"@ {
                    Ok((Some(value), message))
                } else if key == "message"@ {
                    Ok((code, Some(message_expr(value, lit))))
                } else {
                    Err(unknown_option_error(key))
                }
            },
        }
    }
}

/// Reads the `response` attributes among `attrs`; other attributes are
/// passed over.
pub fn read_response_attrs(attrs: &Vec<Attribute>) -> (r: Result<ResponseAttrs, String>)
    ensures
        match (r, read_options(response_options(attrs@))) {
            (Ok(a), Ok((code, message))) => opt_text(a.code) == code && opt_text(a.message)
                == message,
            (Err(e), Err(text)) => e@ == text,
            _ => false,
        },
{
    let mut code: Option<String> = None;
    let mut message: Option<String> = None;
    let response = "response".to_owned();
    let mut i: usize = 0;
    while i < attrs.len()
        invariant
            i <= attrs@.len(),
            response@ == "response"@,
            read_options(response_options(attrs@.take(i as int))) == Ok::<
                (Option<Seq<char>>, Option<Seq<char>>),
                Seq<char>,
            >((opt_text(code), opt_text(message))),
        decreases attrs@.len() - i,
    {
        let attr = &attrs[i];
        assert(attrs@.take(i + 1).drop_last() =~= attrs@.take(i as int));
        if attr.path == response {
            let ghost before = response_options(attrs@.take(i as int));
            let ghost opts = attr.options@.map_values(|o: ResponseOption| option_view(o));
            assert(response_options(attrs@.take(i + 1)) == before + opts);
            let mut j: usize = 0;
            while j < attr.options.len()
                invariant
                    i < attrs@.len(),
                    *attr == attrs@[i as int],
                    attr.path@ == "response"@,
                    before == response_options(attrs@.take(i as int)),
                    response_options(attrs@.take(i + 1)) == before + opts,
                    j <= attr.options@.len(),
                    opts == attr.options@.map_values(|o: ResponseOption| option_view(o)),
                    read_options(before + opts.take(j as int)) == Ok::<
                        (Option<Seq<char>>, Option<Seq<char>>),
                        Seq<char>,
                    >((opt_text(code), opt_text(message))),
                decreases attr.options@.len() - j,
            {
                let option = &attr.options[j];
                assert((before + opts.take(j + 1)).drop_last() =~= before + opts.take(j as int));
                assert((before + opts.take(j + 1)).last() == option_view(*option));
                if option.key == "code".to_owned() {
                    code = Some(option.value.clone());
                } else if option.key == "message".to_owned() {
                    let text = if option.is_str_literal {
                        option.value.clone().concat(".to_string()")
                    } else {
                        "(".to_owned().concat(option.value.as_str()).concat(").to_string()")
                    };
                    message = Some(text);
                } else {
                    let e = "unknown error_response option `".to_owned().concat(
                        option.key.as_str(),
                    ).concat("`; expected `code` or `message`");
                    proof {
                        let upto = before + opts.take(j + 1);
                        assert(read_options(upto) == Err::<
                            (Option<Seq<char>>, Option<Seq<char>>),
                            Seq<char>,
                        >(unknown_option_error(option.key@)));
                        lemma_error_stays(upto, opts.skip(j + 1));
                        assert(upto + opts.skip(j + 1) =~= before + opts);
                        lemma_error_stays_attrs(attrs@, i as int, attrs@.len() as int);
                        assert(attrs@.take(attrs@.len() as int) =~= attrs@);
                    }
                    return Err(e);
                }
                j = j + 1;
            }
            assert(opts.take(attr.options@.len() as int) =~= opts);
        }
        i = i + 1;
    }
    assert(attrs@.take(attrs@.len() as int) =~= attrs@);
    Ok(ResponseAttrs { code, message })
}

/// The fields of a variant, which decide the pattern that matches it.
pub enum VariantFields {
    Unit,
    Unnamed,
    Named,
}

/// A variant of the type that derives `IntoErrorResponse`.
pub struct VariantDecl {
    pub name: String,
    pub fields: VariantFields,
    pub attrs: Vec<Attribute>,
}

/// One arm of the derived `into_error_response`: the variants it matches,
/// and the code and text expressions of their answer.
pub struct ErrorArm {
    pub pattern: String,
    pub code: String,
    pub message: String,
}

/// An arm as plain text.
pub type ArmView = (Seq<char>, Seq<char>, Seq<char>);

/// The code of an answer that no attribute names.
pub open spec fn default_code() -> Seq<char> {
    "::wspc::INTERNAL_ERROR_CODE"@
}

/// The text expression of an answer that no attribute names.
pub open spec fn default_message() -> Seq<char> {
    "\"Internal error\".to_string()"@
}

/// A variant's own setting wins over the type's, which wins over the
/// default.
pub open spec fn pick(own: Option<Seq<char>>, inherited: Option<Seq<char>>, default: Seq<char>) -> Seq<
    char,
> {
    match own {
        Some(e) => e,
        None => match inherited {
            Some(e) => e,
            None => default,
        },
    }
}

/// The pattern that matches a variant whatever its fields hold.
pub open spec fn pattern_text(name: Seq<char>, fields: VariantFields) -> Seq<char> {
    match fields {
        VariantFields::Unit => "Self::"@ + name,
        VariantFields::Unnamed => "Self::"@ + name + "(..)"@,
        VariantFields::Named => "Self::"@ + name + " { .. }"@,
    }
}

/// The arms for `variants`, in order, under the type-wide settings `ty`;
/// the first variant whose attributes cannot be read gives the error.
pub open spec fn arms_of(
    ty: (Option<Seq<char>>, Option<Seq<char>>),
    variants: Seq<VariantDecl>,
) -> Result<Seq<ArmView>, Seq<char>>
    decreases variants.len(),
{
    if variants.len() == 0 {
        Ok(Seq::empty())
    } else {
        match arms_of(ty, variants.drop_last()) {
            Err(e) => Err(e),
            Ok(arms) => {
                let v = variants.last();
                match read_options(response_options(v.attrs@)) {
                    Err(e) => Err(e),
                    Ok((code, message)) => Ok(
                        arms.push(
                            (
                                pattern_text(v.name@, v.fields),
                                pick(code, ty.0, default_code()),
                                pick(message, ty.1, default_message()),
                            ),
                        ),
                    ),
                }
            },
        }
    }
}

/// The text view of an arm.
pub open spec fn arm_view(a: ErrorArm) -> ArmView {
    (a.pattern@, a.code@, a.message@)
}

/// A clone of an optional expression.
fn clone_opt(e: &Option<String>) -> (r: Option<String>)
    ensures
        opt_text(r) == opt_text(*e),
{
    match e {
        Some(s) => Some(s.clone()),
        None => None,
    }
}

/// The code and text expressions of an answer: `own` settings first, then
/// `inherited` ones, then the defaults.
pub fn response_parts(own: &ResponseAttrs, inherited: &ResponseAttrs) -> (r: (String, String))
    ensures
        r.0@ == pick(opt_text(own.code), opt_text(inherited.code), default_code()),
        r.1@ == pick(opt_text(own.message), opt_text(inherited.message), default_message()),
{
    let code = match clone_opt(&own.code) {
        Some(c) => c,
        None => match clone_opt(&inherited.code) {
            Some(c) => c,
            None => "::wspc::INTERNAL_ERROR_CODE".to_owned(),
        },
    };
    let message = match clone_opt(&own.message) {
        Some(m) => m,
        None => match clone_opt(&inherited.message) {
            Some(m) => m,
            None => "\"Internal error\".to_string()".to_owned(),
        },
    };
    (code, message)
}

/// The pattern that matches variant `name` with these fields.
pub fn variant_pattern(name: &String, fields: &VariantFields) -> (r: String)
    ensures
        r@ == pattern_text(name@, *fields),
{
    let head = "Self::".to_owned().concat(name.as_str());
    match fields {
        VariantFields::Unit => head,
        VariantFields::Unnamed => head.concat("(..)"),
        VariantFields::Named => head.concat(" { .. }"),
    }
}

/// The arms of the derived `into_error_response` of an enum: the type's
/// attributes are read first, then each variant's, and the first that
/// cannot be read gives the error.
pub fn error_arms(type_attrs: &Vec<Attribute>, variants: &Vec<VariantDecl>) -> (r: Result<
    Vec<ErrorArm>,
    String,
>)
    ensures
        match read_options(response_options(type_attrs@)) {
            Err(e) => r matches Err(text) && text@ == e,
            Ok(ty) => match (r, arms_of(ty, variants@)) {
                (Ok(arms), Ok(expected)) => arms@.map_values(|a: ErrorArm| arm_view(a))
                    == expected,
                (Err(text), Err(e)) => text@ == e,
                _ => false,
            },
        },
{
    let ty = read_response_attrs(type_attrs)?;
    let ghost tyv = (opt_text(ty.code), opt_text(ty.message));
    let mut arms: Vec<ErrorArm> = Vec::new();
    let mut i: usize = 0;
    assert(variants@.take(0) =~= Seq::<VariantDecl>::empty());
    assert(arms@.map_values(|a: ErrorArm| arm_view(a)) =~= Seq::<ArmView>::empty());
    while i < variants.len()
        invariant
            i <= variants@.len(),
            tyv == (opt_text(ty.code), opt_text(ty.message)),
            read_options(response_options(type_attrs@)) == Ok::<
                (Option<Seq<char>>, Option<Seq<char>>),
                Seq<char>,
            >(tyv),
            arms_of(tyv, variants@.take(i as int)) == Ok::<Seq<ArmView>, Seq<char>>(
                arms@.map_values(|a: ErrorArm| arm_view(a)),
            ),
        decreases variants@.len() - i,
    {
        let v = &variants[i];
        assert(variants@.take(i + 1).drop_last() =~= variants@.take(i as int));
        let own = match read_response_attrs(&v.attrs) {
            Ok(own) => own,
            Err(e) => {
                proof {
                    lemma_arms_error_stays(tyv, variants@, i as int, variants@.len() as int);
                    assert(variants@.take(variants@.len() as int) =~= variants@);
                }
                return Err(e);
            },
        };
        let (code, message) = response_parts(&own, &ty);
        let pattern = variant_pattern(&v.name, &v.fields);
        let ghost before = arms@;
        arms.push(ErrorArm { pattern, code, message });
        assert(arms@.map_values(|a: ErrorArm| arm_view(a)) =~= before.map_values(
            |a: ErrorArm| arm_view(a),
        ).push(arm_view(arms@.last())));
        i = i + 1;
    }
    assert(variants@.take(variants@.len() as int) =~= variants@);
    Ok(arms)
}

/// The code and text expressions of the derived `into_error_response` of a
/// struct or union: the type's settings, else the defaults.
pub fn type_response_parts(type_attrs: &Vec<Attribute>) -> (r: Result<(String, String), String>)
    ensures
        match (r, read_options(response_options(type_attrs@))) {
            (Ok(parts), Ok((code, message))) => parts.0@ == pick(None, code, default_code())
                && parts.1@ == pick(None, message, default_message()),
            (Err(text), Err(e)) => text@ == e,
            _ => false,
        },
{
    let ty = read_response_attrs(type_attrs)?;
    let none = ResponseAttrs { code: None, message: None };
    Ok(response_parts(&none, &ty))
}

/// Each variant of an enum gets one arm, in order, matching it by its name
/// and fields. Its code is the variant's own `code` where it has one, else
/// the type's `code` where the type has one, else
/// `::wspc::INTERNAL_ERROR_CODE`; its text is likewise the variant's own
/// `message`, else the type's, else `"Internal error".to_string()`.
pub proof fn arms_fall_back_to_type_then_default(
    ty: (Option<Seq<char>>, Option<Seq<char>>),
    variants: Seq<VariantDecl>,
    i: int,
)
    requires
        arms_of(ty, variants) is Ok,
        0 <= i < variants.len(),
    ensures
        arms_of(ty, variants)->Ok_0.len() == variants.len(),
        read_options(response_options(variants[i].attrs@)) is Ok,
        ({
            let arm = arms_of(ty, variants)->Ok_0[i];
            let own = read_options(response_options(variants[i].attrs@))->Ok_0;
            &&& arm.0 == pattern_text(variants[i].name@, variants[i].fields)
            &&& own.0 matches Some(c) ==> arm.1 == c
            &&& (own.0 is None && ty.0 is Some) ==> arm.1 == ty.0->0
            &&& (own.0 is None && ty.0 is None) ==> arm.1 == "::wspc::INTERNAL_ERROR_CODE"@
            &&& own.1 matches Some(m) ==> arm.2 == m
            &&& (own.1 is None && ty.1 is Some) ==> arm.2 == ty.1->0
            &&& (own.1 is None && ty.1 is None) ==> arm.2 == "\"Internal error\".to_string()"@
        }),
    decreases variants.len(),
{
    let n = variants.len() - 1;
    let earlier = variants.drop_last();
    if i < n {
        arms_fall_back_to_type_then_default(ty, earlier, i);
        assert(earlier[i] == variants[i]);
    } else {
        if earlier.len() > 0 {
            arms_fall_back_to_type_then_default(ty, earlier, 0);
        }
    }
}

/// A failure at the `i`-th variant stays the failure of the first `k`
/// variants, for every larger `k`.
proof fn lemma_arms_error_stays(
    ty: (Option<Seq<char>>, Option<Seq<char>>),
    variants: Seq<VariantDecl>,
    i: int,
    k: int,
)
    requires
        0 <= i < k <= variants.len(),
        arms_of(ty, variants.take(i)) is Ok,
        read_options(response_options(variants[i].attrs@)) is Err,
    ensures
        arms_of(ty, variants.take(k)) == Err::<Seq<ArmView>, Seq<char>>(
            read_options(response_options(variants[i].attrs@))->Err_0,
        ),
    decreases k,
{
    assert(variants.take(k).drop_last() =~= variants.take(k - 1));
    if k > i + 1 {
        lemma_arms_error_stays(ty, variants, i, k - 1);
    } else {
        assert(variants.take(k).last() == variants[i]);
    }
}

/// Once reading fails, reading further options fails the same way.
proof fn lemma_error_stays(front: Seq<OptionView>, back: Seq<OptionView>)
    requires
        read_options(front) is Err,
    ensures
        read_options(front + back) == read_options(front),
    decreases back.len(),
{
    if back.len() > 0 {
        lemma_error_stays(front, back.drop_last());
        assert((front + back).drop_last() =~= front + back.drop_last());
    } else {
        assert(front + back =~= front);
    }
}

/// A failure among the options of the first `i + 1` attributes stays the
/// failure of the first `k` of them, for every larger `k`.
proof fn lemma_error_stays_attrs(attrs: Seq<Attribute>, i: int, k: int)
    requires
        0 <= i < k <= attrs.len(),
        read_options(response_options(attrs.take(i + 1))) is Err,
    ensures
        read_options(response_options(attrs.take(k))) == read_options(
            response_options(attrs.take(i + 1)),
        ),
    decreases k,
{
    if k > i + 1 {
        lemma_error_stays_attrs(attrs, i, k - 1);
        let front = response_options(attrs.take(k - 1));
        assert(attrs.take(k).drop_last() =~= attrs.take(k - 1));
        if attrs[k - 1].path@ == "response"@ {
            lemma_error_stays(
                front,
                attrs[k - 1].options@.map_values(|o: ResponseOption| option_view(o)),
            );
        }
    }
}

} // verus!
