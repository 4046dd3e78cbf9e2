//! The parameter binder: arranges the parameters of a call into the argument
//! list of a method with a given list of parameter names.

use vstd::prelude::*;
use vstd::string::StringExecFns;
use serde_json::Value;
use crate::text::{decimal, decimal_text};
use crate::types::{Error, ErrorCode, ErrorView, Params, ParamsView};
use crate::wire::{map_entries, map_first_key, map_remove};

verus! {

/// Why the parameters of a call do not fit a method.
#[derive(Debug, PartialEq, Eq)]
#[allow(inconsistent_fields)]
pub enum InvalidArgs {
    /// Parameters were given by position, and not as many as the method takes.
    WrongNumberOfArgs { expected: usize, actual: usize },
    /// Parameters were given by name, and the method has no parameter of this name.
    ExtraNamedParameter { name: String },
    /// Parameters were given by name, and none for this parameter of the method.
    MissingNamedParameter { name: &'static str },
    /// The argument at this position cannot be read as the type that the method takes.
    InvalidArgStructure { name: &'static str, index: usize },
}

/// Model of [`InvalidArgs`].
pub enum InvalidArgsView {
    WrongNumberOfArgs { expected: nat, actual: nat },
    ExtraNamedParameter { name: Seq<char> },
    MissingNamedParameter { name: Seq<char> },
    InvalidArgStructure { name: Seq<char>, index: nat },
}

impl View for InvalidArgs {
    type V = InvalidArgsView;

    open spec fn view(&self) -> InvalidArgsView {
        match *self {
            InvalidArgs::WrongNumberOfArgs { expected, actual } => {
                InvalidArgsView::WrongNumberOfArgs { expected: expected as nat, actual: actual as nat }
            },
            InvalidArgs::ExtraNamedParameter { name } => {
                InvalidArgsView::ExtraNamedParameter { name: name@ }
            },
            InvalidArgs::MissingNamedParameter { name } => {
                InvalidArgsView::MissingNamedParameter { name: name@ }
            },
            InvalidArgs::InvalidArgStructure { name, index } => {
                InvalidArgsView::InvalidArgStructure { name: name@, index: index as nat }
            },
        }
    }
}

impl InvalidArgsView {
    /// The message that tells this failure from the others.
    pub open spec fn message(self) -> Seq<char> {
        match self {
            InvalidArgsView::WrongNumberOfArgs { expected, actual } => {
                "WrongNumberOfArgs. Expected "@ + decimal(expected) + ". Actual "@ + decimal(actual)
            },
            InvalidArgsView::ExtraNamedParameter { name } => "ExtraNamedParameter "@ + name,
            InvalidArgsView::MissingNamedParameter { name } => "MissingNamedParameter "@ + name,
            InvalidArgsView::InvalidArgStructure { name, index } => {
                "InvalidArgStructure "@ + name + " at position "@ + decimal(index) + "."@
            },
        }
    }

    /// The error object that reports this failure: "invalid params", with the
    /// message of the failure and no data.
    pub open spec fn error(self) -> ErrorView {
        ErrorView::invalid_params(self.message())
    }
}

impl Into<Error> for InvalidArgs {
    /// The error object that reports this failure to the caller.
    fn into(self) -> (error: Error)
        ensures
            <Error as View>::view(&error) == self@.error(),
    {
        let message = match self {
            InvalidArgs::WrongNumberOfArgs { expected, actual } => {
                let expected = decimal_text(expected);
                let actual = decimal_text(actual);
                String::from_str("WrongNumberOfArgs. Expected ").concat(expected.as_str()).concat(
                    ". Actual ",
                ).concat(actual.as_str())
            },
            InvalidArgs::ExtraNamedParameter { name } => {
                String::from_str("ExtraNamedParameter ").concat(name.as_str())
            },
            InvalidArgs::MissingNamedParameter { name } => {
                String::from_str("MissingNamedParameter ").concat(name)
            },
            InvalidArgs::InvalidArgStructure { name, index } => {
                let index = decimal_text(index);
                String::from_str("InvalidArgStructure ").concat(name).concat(
                    " at position ",
                ).concat(index.as_str()).concat(".")
            },
        };
        Error::invalid_params(message)
    }
}

impl vstd::std_specs::convert::IntoSpecImpl<Error> for InvalidArgs {
    /// The conversion is stated over views, in the contract of `into`, since
    /// two error objects with the same text are the same only in their views.
    open spec fn obeys_into_spec() -> bool {
        false
    }

    open spec fn into_spec(self) -> Error {
        arbitrary()
    }
}

/// Model of what the binder returns.
pub open spec fn bound_view(res: Result<Vec<Value>, InvalidArgs>) -> Result<
    Seq<Value>,
    InvalidArgsView,
> {
    match res {
        Ok(values) => Ok(values@),
        Err(invalid) => Err(invalid@),
    }
}

/// What binding by position gives: the values as they are, if there is one
/// for each name.
pub open spec fn bind_positional(names: Seq<Seq<char>>, values: Seq<Value>) -> Result<
    Seq<Value>,
    InvalidArgsView,
> {
    if values.len() == names.len() {
        Ok(values)
    } else {
        Err(InvalidArgsView::WrongNumberOfArgs { expected: names.len(), actual: values.len() })
    }
}

/// Whether the name at position `i` finds no value: the object has no entry
/// under it, or the same name stands at an earlier position and has taken it.
pub open spec fn missing_at(names: Seq<Seq<char>>, entries: Map<Seq<char>, Value>, i: int) -> bool {
    &&& 0 <= i < names.len()
    &&& (!entries.dom().contains(names[i]) || exists|j: int| 0 <= j < i && names[j] == names[i])
}

/// Whether `i` is the first position whose name finds no value.
pub open spec fn first_missing_at(
    names: Seq<Seq<char>>,
    entries: Map<Seq<char>, Value>,
    i: int,
) -> bool {
    &&& missing_at(names, entries, i)
    &&& forall|j: int| 0 <= j < i ==> !missing_at(names, entries, j)
}

/// Whether `key` is a key of the object that is no name of the method.
pub open spec fn extra_key(
    names: Seq<Seq<char>>,
    entries: Map<Seq<char>, Value>,
    key: Seq<char>,
) -> bool {
    entries.dom().contains(key) && !names.contains(key)
}

/// What binding by name gives.
///
/// If some name finds no value, the error names the first such name. If not,
/// and the object has a key that is no name of the method, the error names
/// one such key. Otherwise it is the values of the names, in their order.
pub open spec fn binds_named(
    names: Seq<Seq<char>>,
    entries: Map<Seq<char>, Value>,
    res: Result<Seq<Value>, InvalidArgsView>,
) -> bool {
    if exists|i: int| missing_at(names, entries, i) {
        exists|i: int|
            first_missing_at(names, entries, i) && res == Err::<Seq<Value>, InvalidArgsView>(
                InvalidArgsView::MissingNamedParameter { name: names[i] },
            )
    } else if exists|key: Seq<char>| extra_key(names, entries, key) {
        exists|key: Seq<char>|
            extra_key(names, entries, key) && res == Err::<Seq<Value>, InvalidArgsView>(
                InvalidArgsView::ExtraNamedParameter { name: key },
            )
    } else {
        res == Ok::<Seq<Value>, InvalidArgsView>(
            Seq::new(names.len(), |i: int| entries[names[i]]),
        )
    }
}

/// What the binder gives for a list of parameter names and the parameters of
/// a call. Absent parameters count as an empty list of positional ones.
pub open spec fn binds(
    names: Seq<Seq<char>>,
    params: ParamsView,
    res: Result<Seq<Value>, InvalidArgsView>,
) -> bool {
    match params {
        ParamsView::Absent => res == bind_positional(names, Seq::empty()),
        ParamsView::Array(values) => res == bind_positional(names, values),
        ParamsView::Named(entries) => binds_named(names, entries, res),
    }
}

/// Positional parameters that are not as many as the names of the method are
/// refused for their number, and the error object that reports it has the
/// code "invalid params" and a message that gives both numbers.
pub proof fn wrong_count_is_refused(
    names: Seq<Seq<char>>,
    values: Seq<Value>,
    res: Result<Seq<Value>, InvalidArgsView>,
)
    requires
        values.len() != names.len(),
        binds(names, ParamsView::Array(values), res),
    ensures
        res == Err::<Seq<Value>, InvalidArgsView>(
            InvalidArgsView::WrongNumberOfArgs { expected: names.len(), actual: values.len() },
        ),
        res->Err_0.error().code == ErrorCode::InvalidParams,
        res->Err_0.error().message == "WrongNumberOfArgs. Expected "@ + decimal(names.len())
            + ". Actual "@ + decimal(values.len()),
{
}

/// Absent parameters are refused for their number by a method that has
/// parameters, and accepted as no arguments by a method that has none.
pub proof fn absent_params_are_no_params(
    names: Seq<Seq<char>>,
    res: Result<Seq<Value>, InvalidArgsView>,
)
    requires
        binds(names, ParamsView::Absent, res),
    ensures
        names.len() == 0 ==> res == Ok::<Seq<Value>, InvalidArgsView>(Seq::empty()),
        names.len() != 0 ==> res == Err::<Seq<Value>, InvalidArgsView>(
            InvalidArgsView::WrongNumberOfArgs { expected: names.len(), actual: 0 },
        ),
{
}

/// Named parameters that lack a name of the method are refused with a name
/// that finds no value, and the error object that reports it has the code
/// "invalid params" and a message that ends in that name.
pub proof fn missing_name_is_refused(
    names: Seq<Seq<char>>,
    entries: Map<Seq<char>, Value>,
    res: Result<Seq<Value>, InvalidArgsView>,
    i: int,
)
    requires
        0 <= i < names.len(),
        !entries.dom().contains(names[i]),
        binds(names, ParamsView::Named(entries), res),
    ensures
        res matches Err(InvalidArgsView::MissingNamedParameter { name }) && names.contains(name)
            && res->Err_0.error().code == ErrorCode::InvalidParams && res->Err_0.error().message
            == "MissingNamedParameter "@ + name,
{
    assert(missing_at(names, entries, i));
}

/// Named parameters that hold every name of the method, each once, and a
/// key besides are refused with a key that is no name of the method, and the
/// error object that reports it has the code "invalid params" and a message
/// that ends in that key.
pub proof fn extra_key_is_refused(
    names: Seq<Seq<char>>,
    entries: Map<Seq<char>, Value>,
    res: Result<Seq<Value>, InvalidArgsView>,
    key: Seq<char>,
)
    requires
        forall|i: int| 0 <= i < names.len() ==> !missing_at(names, entries, i),
        entries.dom().contains(key),
        !names.contains(key),
        binds(names, ParamsView::Named(entries), res),
    ensures
        res matches Err(InvalidArgsView::ExtraNamedParameter { name }) && extra_key(
            names,
            entries,
            name,
        ) && res->Err_0.error().code == ErrorCode::InvalidParams && res->Err_0.error().message
            == "ExtraNamedParameter "@ + name,
{
    assert(extra_key(names, entries, key));
}

/// Named parameters that hold exactly the names of the method, each once,
/// are accepted, and the arguments are the values of the names in the order
/// of the names.
pub proof fn exact_names_are_bound(
    names: Seq<Seq<char>>,
    entries: Map<Seq<char>, Value>,
    res: Result<Seq<Value>, InvalidArgsView>,
)
    requires
        names.no_duplicates(),
        forall|key: Seq<char>| entries.dom().contains(key) <==> names.contains(key),
        binds(names, ParamsView::Named(entries), res),
    ensures
        res matches Ok(values) && values.len() == names.len() && forall|i: int|
            0 <= i < names.len() ==> values[i] == entries[names[i]],
{
    assert forall|i: int| !missing_at(names, entries, i) by {
        if 0 <= i < names.len() {
            assert(names.contains(names[i]));
        }
    }
}

/// Checks the parameters of a call against the parameter names of a method
/// and turns them into its argument list.
///
/// Positional parameters must be as many as the names and are returned as
/// they are. Named parameters must hold exactly the names and are returned in
/// the order of the names. Absent parameters count as an empty positional
/// list.
pub fn get_rpc_args(names: &[&'static str], params: Params) -> (res: Result<
    Vec<Value>,
    InvalidArgs,
>)
    ensures
        binds(names.deep_view(), params@, bound_view(res)),
{
    let ghost schema = names.deep_view();
    let values: Vec<Value> = match params {
        Params::Array(values) => values,
        Params::Named(mut object) => {
            let ghost entries = map_entries(object);
            let mut values: Vec<Value> = Vec::with_capacity(names.len());
            let mut i: usize = 0;
            while i < names.len()
                invariant
                    i <= names.len(),
                    schema == names.deep_view(),
                    params@ == ParamsView::Named(entries),
                    values@.len() == i,
                    forall|k: int| 0 <= k < i ==> !missing_at(schema, entries, k),
                    forall|k: int| 0 <= k < i ==> values@[k] == entries[#[trigger] schema[k]],
                    forall|key: Seq<char>| #[trigger]
                        map_entries(object).dom().contains(key) <==> (entries.dom().contains(key)
                            && !exists|k: int| 0 <= k < i && schema[k] == key),
                    forall|key: Seq<char>| #[trigger]
                        map_entries(object).dom().contains(key) ==> map_entries(object)[key]
                            == entries[key],
                decreases names.len() - i,
            {
                let name: &'static str = names[i];
                assert(schema[i as int] == name@);
                match map_remove(&mut object, name) {
                    Some(value) => {
                        values.push(value);
                    },
                    None => {
                        assert(first_missing_at(schema, entries, i as int));
                        return Err(InvalidArgs::MissingNamedParameter { name });
                    },
                }
                i += 1;
            }
            match map_first_key(&object) {
                Some(key) => {
                    assert(extra_key(schema, entries, key@));
                    return Err(InvalidArgs::ExtraNamedParameter { name: key });
                },
                None => {
                    assert forall|key: Seq<char>| !extra_key(schema, entries, key) by {
                        if extra_key(schema, entries, key) {
                            assert(!map_entries(object).dom().contains(key));
                        }
                    }
                    assert(values@ =~= Seq::new(schema.len(), |i: int| entries[schema[i]]));
                    values
                },
            }
        },
        Params::Absent => Vec::new(),
    };
    if values.len() != names.len() {
        Err(InvalidArgs::WrongNumberOfArgs { expected: names.len(), actual: values.len() })
    } else {
        Ok(values)
    }
}

} // verus!
