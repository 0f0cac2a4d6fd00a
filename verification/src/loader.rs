use crate::convert::FromRaw;
use crate::error::Error;
use crate::raw::RawString;
use vstd::prelude::*;

verus! {

/// The raw bytes carried by an environment lookup's outcome.
pub open spec fn opt_view(looked_up: Option<RawString>) -> Option<Seq<u8>> {
    match looked_up {
        Option::Some(v) => Option::Some(v@),
        Option::None => Option::None,
    }
}

/// What converting the present raw value `raw` of the variable `name`
/// returns: the converted value when `raw` converts, else a `ParseError`
/// naming exactly that variable and carrying the conversion failure's
/// message.
pub open spec fn conversion_result<T: FromRaw>(
    name: Seq<u8>,
    raw: Seq<u8>,
    r: Result<T, Error>,
) -> bool {
    if T::can_parse(raw) {
        r matches Ok(v) && T::parses_to(raw, v)
    } else {
        r matches Err(Error::ParseError { name: n, info }) && n@ == name && info@
            == T::failure_message(raw)
    }
}

/// What `load_var` returns: `EnvVarMissing` for an absent variable, else the
/// outcome of converting the present raw value.
pub open spec fn load_var_result<T: FromRaw>(
    name: Seq<u8>,
    looked_up: Option<Seq<u8>>,
    r: Result<T, Error>,
) -> bool {
    match looked_up {
        Option::None => r matches Err(Error::EnvVarMissing { name: n }) && n@ == name,
        Option::Some(raw) => conversion_result::<T>(name, raw, r),
    }
}

/// What `load_var_with_default` returns: the outcome of converting the
/// present raw value, or of converting the default when the variable is
/// absent.
pub open spec fn load_var_with_default_result<T: FromRaw>(
    name: Seq<u8>,
    default: Seq<u8>,
    looked_up: Option<Seq<u8>>,
    r: Result<T, Error>,
) -> bool {
    match looked_up {
        Option::None => conversion_result::<T>(name, default, r),
        Option::Some(raw) => conversion_result::<T>(name, raw, r),
    }
}

/// What `load_optional_var` returns: `Ok(None)` for an absent variable, else
/// the converted value wrapped in `Some`, or a `ParseError` when the present
/// value does not convert.
pub open spec fn load_optional_var_result<T: FromRaw>(
    name: Seq<u8>,
    looked_up: Option<Seq<u8>>,
    r: Result<Option<T>, Error>,
) -> bool {
    match looked_up {
        Option::None => r matches Ok(v) && v is None,
        Option::Some(raw) => if T::can_parse(raw) {
            r matches Ok(v) && v matches Some(x) && T::parses_to(raw, x)
        } else {
            r matches Err(Error::ParseError { name: n, info }) && n@ == name && info@
                == T::failure_message(raw)
        },
    }
}

/// Converts a present raw value, wrapping a conversion failure into
/// `ParseError` under the variable's name.
fn convert_present<T: FromRaw>(name: &RawString, raw: &RawString) -> (r: Result<T, Error>)
    ensures
        conversion_result::<T>(name@, raw@, r),
{
    match T::from_raw(raw) {
        Result::Ok(v) => Result::Ok(v),
        Result::Err(info) => Result::Err(Error::ParseError { name: name.clone(), info }),
    }
}

/// Resolves a required variable.
///
/// `looked_up` is the outcome of the caller's single environment read for
/// `name`: `None` when the variable is unset, else the raw value found.
/// An unset variable fails with `EnvVarMissing`; a present value is fed to
/// `T`'s conversion, whose failure becomes a `ParseError`.
pub fn load_var<T: FromRaw>(name: &RawString, looked_up: Option<RawString>) -> (r: Result<
    T,
    Error,
>)
    ensures
        load_var_result::<T>(name@, opt_view(looked_up), r),
{
    match looked_up {
        Option::Some(raw) => convert_present::<T>(name, &raw),
        Option::None => Result::Err(Error::EnvVarMissing { name: name.clone() }),
    }
}

/// Resolves a variable that falls back to a default raw value.
///
/// The default stands in for the missing value *before* conversion, so both
/// the live value and the default go through the single conversion path; an
/// unset variable can therefore never yield `EnvVarMissing` here.
pub fn load_var_with_default<T: FromRaw>(
    name: &RawString,
    default: RawString,
    looked_up: Option<RawString>,
) -> (r: Result<T, Error>)
    ensures
        load_var_with_default_result::<T>(name@, default@, opt_view(looked_up), r),
{
    let raw = match looked_up {
        Option::Some(v) => v,
        Option::None => default,
    };
    convert_present::<T>(name, &raw)
}

/// Resolves an optional variable.
///
/// Absence is the one case that is not a failure: it yields `Ok(None)`. A
/// present value that does not convert is still reported as a `ParseError`,
/// never silently dropped.
pub fn load_optional_var<T: FromRaw>(name: &RawString, looked_up: Option<RawString>) -> (r: Result<
    Option<T>,
    Error,
>)
    ensures
        load_optional_var_result::<T>(name@, opt_view(looked_up), r),
{
    match looked_up {
        Option::None => Result::Ok(Option::None),
        Option::Some(raw) => match T::from_raw(&raw) {
            Result::Ok(v) => Result::Ok(Option::Some(v)),
            Result::Err(info) => Result::Err(Error::ParseError { name: name.clone(), info }),
        },
    }
}

/// An unset variable always fails `load_var` with `EnvVarMissing` carrying
/// the exact lookup name, whatever the target type.
pub proof fn lemma_load_var_unset_is_missing<T: FromRaw>(name: Seq<u8>, r: Result<T, Error>)
    requires
        load_var_result::<T>(name, Option::None, r),
    ensures
        r matches Err(Error::EnvVarMissing { name: n }) && n@ == name,
{
}

/// With a default, an unset variable behaves exactly as converting the
/// default raw value directly, and in particular can never fail with
/// `EnvVarMissing`.
pub proof fn lemma_with_default_unset_converts_default<T: FromRaw>(
    name: Seq<u8>,
    default: Seq<u8>,
    r: Result<T, Error>,
)
    ensures
        load_var_with_default_result::<T>(name, default, Option::None, r) == conversion_result::<
            T,
        >(name, default, r),
        load_var_with_default_result::<T>(name, default, Option::None, r) ==> !(r matches Err(
            Error::EnvVarMissing { .. },
        )),
{
}

/// When the variable is set, the default is ignored entirely: any two
/// defaults admit exactly the same results.
pub proof fn lemma_with_default_set_ignores_default<T: FromRaw>(
    name: Seq<u8>,
    default_a: Seq<u8>,
    default_b: Seq<u8>,
    raw: Seq<u8>,
    r: Result<T, Error>,
)
    ensures
        load_var_with_default_result::<T>(name, default_a, Option::Some(raw), r)
            == load_var_with_default_result::<T>(name, default_b, Option::Some(raw), r),
{
}

/// An unset variable is not a failure for `load_optional_var`: the result is
/// `Ok(None)` for every target type.
pub proof fn lemma_optional_unset_is_none<T: FromRaw>(name: Seq<u8>, r: Result<Option<T>, Error>)
    requires
        load_optional_var_result::<T>(name, Option::None, r),
    ensures
        r matches Ok(v) && v is None,
{
}

/// A present but unconvertible value is reported by `load_optional_var` as a
/// `ParseError` naming the variable; it is never silently turned into
/// `Ok(None)`.
pub proof fn lemma_optional_unparsable_is_error<T: FromRaw>(
    name: Seq<u8>,
    raw: Seq<u8>,
    r: Result<Option<T>, Error>,
)
    requires
        load_optional_var_result::<T>(name, Option::Some(raw), r),
        !T::can_parse(raw),
    ensures
        r matches Err(Error::ParseError { name: n, info }) && n@ == name && info@
            == T::failure_message(raw),
{
}

} // verus!
