//! What binding the arguments of a line to the parameters of a command yields.

use crate::error::ErrorView;
use crate::parameter::{Parameter, ParameterView};
use vstd::prelude::*;

verus! {

/// The mathematical content of each parameter of a list.
pub open spec fn parameter_views(parameters: Seq<Parameter>) -> Seq<ParameterView> {
    parameters.map_values(|parameter: Parameter| parameter@)
}

/// The mapping after the first `n` parameters have been gone through in
/// order: a parameter that has an argument is bound to it, one without an
/// argument is bound to its default if it has one, and is left out otherwise.
/// A later parameter takes a name over from an earlier one.
pub open spec fn bound(parameters: Seq<ParameterView>, args: Seq<Seq<char>>, n: int) -> Map<
    Seq<char>,
    Seq<char>,
>
    decreases n,
{
    if n <= 0 {
        Map::empty()
    } else {
        let earlier = bound(parameters, args, n - 1);
        let parameter = parameters[n - 1];
        if n - 1 < args.len() {
            earlier.insert(parameter.name, args[n - 1])
        } else if parameter.default is Some {
            earlier.insert(parameter.name, parameter.default->0)
        } else {
            earlier
        }
    }
}

/// The parameter at `i` is required and has no argument, and it is the first
/// such parameter.
pub open spec fn first_missing(parameters: Seq<ParameterView>, supplied: int, i: int) -> bool {
    &&& supplied <= i < parameters.len()
    &&& parameters[i].required
    &&& forall|k: int| supplied <= k < i ==> !(#[trigger] parameters[k]).required
}

/// Some required parameter has no argument.
pub open spec fn has_missing(parameters: Seq<ParameterView>, supplied: int) -> bool {
    exists|i: int| first_missing(parameters, supplied, i)
}

/// What validating the arguments given to a command yields: too many
/// arguments are refused, with the number that the command takes; else the
/// first required parameter without an argument is reported; else every
/// parameter is bound as [`bound`] says.
pub open spec fn validated(
    command: Seq<char>,
    parameters: Seq<ParameterView>,
    args: Seq<Seq<char>>,
) -> Result<Map<Seq<char>, Seq<char>>, ErrorView> {
    if args.len() > parameters.len() {
        Err(ErrorView::TooManyArguments(command, parameters.len()))
    } else if has_missing(parameters, args.len() as int) {
        let i = choose|i: int| first_missing(parameters, args.len() as int, i);
        Err(ErrorView::MissingRequiredArgument(command, parameters[i].name))
    } else {
        Ok(bound(parameters, args, parameters.len() as int))
    }
}

/// No two parameters of the list share a name.
pub open spec fn distinct_parameters(parameters: Seq<ParameterView>) -> bool {
    forall|i: int, j: int|
        0 <= i < j < parameters.len() ==> (#[trigger] parameters[i]).name != (
        #[trigger] parameters[j]).name
}

/// Required parameters come first: none follows an optional one.
pub open spec fn required_first(parameters: Seq<ParameterView>) -> bool {
    forall|i: int, j: int|
        0 <= i < j < parameters.len() && (#[trigger] parameters[j]).required ==> (
        #[trigger] parameters[i]).required
}

/// At most one parameter is the first that is missing.
pub proof fn lemma_first_missing_is_unique(
    parameters: Seq<ParameterView>,
    supplied: int,
    i: int,
    j: int,
)
    requires
        first_missing(parameters, supplied, i),
        first_missing(parameters, supplied, j),
    ensures
        i == j,
{
    if i < j {
        assert(!parameters[i].required);
    } else if j < i {
        assert(!parameters[j].required);
    }
}

/// Where some required parameter has no argument, one of them is the first.
pub proof fn lemma_missing_has_first(parameters: Seq<ParameterView>, supplied: int, i: int)
    requires
        0 <= supplied <= i < parameters.len(),
        parameters[i].required,
    ensures
        has_missing(parameters, supplied),
    decreases i - supplied,
{
    if exists|k: int| supplied <= k < i && (#[trigger] parameters[k]).required {
        let k = choose|k: int| supplied <= k < i && (#[trigger] parameters[k]).required;
        lemma_missing_has_first(parameters, supplied, k);
    } else {
        assert(first_missing(parameters, supplied, i));
    }
}

/// Which names the first `n` parameters bind, and to what, where no two
/// parameters share a name: exactly the names of the parameters that have an
/// argument or a default, each to its argument, or else to its default.
pub proof fn lemma_bound_by_name(parameters: Seq<ParameterView>, args: Seq<Seq<char>>, n: int)
    requires
        distinct_parameters(parameters),
        0 <= n <= parameters.len(),
    ensures
        forall|i: int|
            0 <= i < n && i < args.len() ==> bound(parameters, args, n).contains_key(
                (#[trigger] parameters[i]).name,
            ) && bound(parameters, args, n)[parameters[i].name] == args[i],
        forall|i: int|
            0 <= i < n && args.len() <= i && (#[trigger] parameters[i]).default is Some ==> bound(
                parameters,
                args,
                n,
            ).contains_key(parameters[i].name) && bound(parameters, args, n)[parameters[i].name]
                == parameters[i].default->0,
        forall|i: int|
            0 <= i < n && args.len() <= i && (#[trigger] parameters[i]).default is None ==> !bound(
                parameters,
                args,
                n,
            ).contains_key(parameters[i].name),
        forall|name: Seq<char>| #[trigger]
            bound(parameters, args, n).contains_key(name) ==> exists|i: int|
                0 <= i < n && (#[trigger] parameters[i]).name == name,
    decreases n,
{
    if n > 0 {
        lemma_bound_by_name(parameters, args, n - 1);
        let earlier = bound(parameters, args, n - 1);
        let last = parameters[n - 1];
        assert forall|name: Seq<char>| #[trigger]
            bound(parameters, args, n).contains_key(name) implies exists|i: int|
            0 <= i < n && (#[trigger] parameters[i]).name == name by {
            if earlier.contains_key(name) {
                let i = choose|i: int| 0 <= i < n - 1 && (#[trigger] parameters[i]).name == name;
                assert(parameters[i].name == name);
            } else {
                assert(last.name == name);
            }
        }
        assert forall|i: int|
            0 <= i < n && args.len() <= i && (#[trigger] parameters[i]).default is None implies !bound(
            parameters,
            args,
            n,
        ).contains_key(parameters[i].name) by {
            if i == n - 1 {
                if earlier.contains_key(last.name) {
                    let k = choose|k: int|
                        0 <= k < n - 1 && (#[trigger] parameters[k]).name == last.name;
                    assert(parameters[k].name != parameters[n - 1].name);
                }
            } else {
                assert(parameters[i].name != parameters[n - 1].name);
            }
        }
        assert forall|i: int| 0 <= i < n && i < args.len() implies bound(
            parameters,
            args,
            n,
        ).contains_key((#[trigger] parameters[i]).name) && bound(parameters, args, n)[parameters[i].name]
            == args[i] by {
            if i < n - 1 {
                assert(parameters[i].name != parameters[n - 1].name);
            }
        }
        assert forall|i: int|
            0 <= i < n && args.len() <= i && (#[trigger] parameters[i]).default is Some implies bound(
            parameters,
            args,
            n,
        ).contains_key(parameters[i].name) && bound(parameters, args, n)[parameters[i].name]
            == parameters[i].default->0 by {
            if i < n - 1 {
                assert(parameters[i].name != parameters[n - 1].name);
            }
        }
    }
}

/// Where required parameters come first, nothing is searched for: arguments
/// are accepted exactly when they are not too many and the first parameter
/// without an argument, if there is one, is optional; and the parameter
/// reported as missing is that first parameter without an argument.
pub proof fn lemma_missing_is_first_without_argument(
    command: Seq<char>,
    parameters: Seq<ParameterView>,
    args: Seq<Seq<char>>,
)
    requires
        required_first(parameters),
        args.len() <= parameters.len(),
    ensures
        validated(command, parameters, args) is Ok <==> (args.len() == parameters.len()
            || !parameters[args.len() as int].required),
        validated(command, parameters, args) is Err ==> validated(command, parameters, args)
            == Err::<Map<Seq<char>, Seq<char>>, ErrorView>(
            ErrorView::MissingRequiredArgument(command, parameters[args.len() as int].name),
        ),
{
    let supplied = args.len() as int;
    if has_missing(parameters, supplied) {
        let i = choose|i: int| first_missing(parameters, supplied, i);
        if supplied < i {
            assert(parameters[i].required);
            assert(parameters[supplied].required);
        }
    } else if supplied < parameters.len() && parameters[supplied].required {
        assert(first_missing(parameters, supplied, supplied));
    }
}

} // verus!
