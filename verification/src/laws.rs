//! Laws of the container, stated over its model and proved once for every
//! payload type, every container and every value.

use crate::container::{MapModel, Tagged};
use vstd::prelude::*;

verus! {

/// Round trip: after a value is stored, looking up the key of its variant
/// gives that value.
pub proof fn law_round_trip<P>(map: MapModel<P>, value: Tagged<P>)
    ensures
        map.set(value).get(value.variant) == Some(value),
{
}

/// Replacing returns the previous value: storing into a container that
/// holds nothing hands back nothing, and storing a second value of the
/// same variant hands back the first, whatever the container held before
/// the first.
pub proof fn law_replace_returns_previous<P>(map: MapModel<P>, first: Tagged<P>, second: Tagged<P>)
    requires
        first.variant == second.variant,
    ensures
        MapModel::empty(map.defaults).replaced(first) is None,
        map.set(first).replaced(second) == Some(first),
{
}

/// Default before insert: a container that holds nothing answers the
/// default lookup of every key with a value of the key's variant that
/// carries the variant's default payload, and the plain lookup of every
/// key with nothing.
pub proof fn law_default_before_insert<P>(defaults: Seq<P>, key: usize)
    ensures
        MapModel::empty(defaults).get_or_default(key) == (Tagged {
            variant: key,
            payload: defaults[key as int],
        }),
        MapModel::empty(defaults).get(key) is None,
{
}

/// The getter of a variant yields the payload of what the default lookup
/// yields for the variant's key, in every container.
pub proof fn law_getter_matches_default_lookup<P>(map: MapModel<P>, key: usize)
    ensures
        map.payload(key) == map.get_or_default(key).payload,
{
}

/// The setter of a variant overwrites: after two calls in a row the
/// container is what the second call alone would have made it, and it
/// holds the second payload under the variant's key.
pub proof fn law_setter_overwrites<P>(map: MapModel<P>, key: usize, first: P, second: P)
    ensures
        map.set_payload(key, first).set_payload(key, second) == map.set_payload(key, second),
        map.set_payload(key, first).set_payload(key, second).get(key) == Some(
            Tagged { variant: key, payload: second },
        ),
        map.set_payload(key, first).set_payload(key, second).payload(key) == second,
{
    assert(map.set_payload(key, first).set_payload(key, second).entries =~= map.set_payload(
        key,
        second,
    ).entries);
}

/// Variants are isolated: storing a value of one variant changes no
/// lookup and no getter of another variant.
pub proof fn law_cross_variant_isolation<P>(map: MapModel<P>, value: Tagged<P>, other: usize)
    requires
        other != value.variant,
    ensures
        map.set(value).get(other) == map.get(other),
        map.set(value).get_or_default(other) == map.get_or_default(other),
        map.set(value).payload(other) == map.payload(other),
        map.set_payload(value.variant, value.payload).get(other) == map.get(other),
        map.set_payload(value.variant, value.payload).get_or_default(other) == map.get_or_default(
            other,
        ),
        map.set_payload(value.variant, value.payload).payload(other) == map.payload(other),
{
}

} // verus!
