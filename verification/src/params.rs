//! The plugin's four host-visible parameters: how the host's integer
//! indices name them, their defaults and slider ranges, and a store that
//! holds one value per parameter.

use vstd::prelude::*;

verus! {

/// Settings are fixed-point numbers: a setting `s` stands for `s / SCALE`.
pub const SCALE: i64 = 10_000;

/// How many parameters the plugin exposes to the host.
pub const PARAM_COUNT: i32 = 4;

/// One of the reverb's parameters, in host index order.
#[derive(Clone, Copy, Debug, PartialEq, Eq, Structural)]
pub enum ParamId {
    Bandwidth,
    Damping,
    Decay,
    Mix,
}

/// The host index of a parameter.
pub open spec fn index_of(id: ParamId) -> i32 {
    match id {
        ParamId::Bandwidth => 0,
        ParamId::Damping => 1,
        ParamId::Decay => 2,
        ParamId::Mix => 3,
    }
}

/// The parameter that a host index names, if any.
pub open spec fn param_for_index(index: i32) -> Option<ParamId> {
    if index == 0 {
        Some(ParamId::Bandwidth)
    } else if index == 1 {
        Some(ParamId::Damping)
    } else if index == 2 {
        Some(ParamId::Decay)
    } else if index == 3 {
        Some(ParamId::Mix)
    } else {
        None
    }
}

/// The default setting of each parameter (0.7, 0.1, 0.3 and 0.1).
pub open spec fn default_of(id: ParamId) -> i64 {
    match id {
        ParamId::Bandwidth => 7000,
        ParamId::Damping => 1000,
        ParamId::Decay => 3000,
        ParamId::Mix => 1000,
    }
}

/// The upper end of each parameter's slider; every slider starts at 0.
/// Decay stops short of 1 (at 0.9999) so that the feedback gain stays below unity.
pub open spec fn max_of(id: ParamId) -> i64 {
    match id {
        ParamId::Decay => 9999,
        _ => SCALE,
    }
}

impl ParamId {
    /// The host index of this parameter.
    pub fn index(self) -> (i: i32)
        ensures
            i == index_of(self),
    {
        match self {
            ParamId::Bandwidth => 0,
            ParamId::Damping => 1,
            ParamId::Decay => 2,
            ParamId::Mix => 3,
        }
    }

    /// The parameter that the host means by `index`; `None` for any index
    /// outside `0..PARAM_COUNT`.
    pub fn from_index(index: i32) -> (r: Option<ParamId>)
        ensures
            r == param_for_index(index),
            r is None <==> !(0 <= index < PARAM_COUNT),
    {
        match index {
            0 => Some(ParamId::Bandwidth),
            1 => Some(ParamId::Damping),
            2 => Some(ParamId::Decay),
            3 => Some(ParamId::Mix),
            _ => None,
        }
    }

    /// The label shown beside this parameter's slider.
    pub fn label(self) -> (s: &'static str)
        ensures
            s@ == match self {
                ParamId::Bandwidth => "bandwidth"@,
                ParamId::Damping => "damping"@,
                ParamId::Decay => "decay"@,
                ParamId::Mix => "mix"@,
            },
    {
        match self {
            ParamId::Bandwidth => "bandwidth",
            ParamId::Damping => "damping",
            ParamId::Decay => "decay",
            ParamId::Mix => "mix",
        }
    }

    /// The setting this parameter starts with.
    pub fn default_setting(self) -> (s: i64)
        ensures
            s == default_of(self),
    {
        match self {
            ParamId::Bandwidth => 7000,
            ParamId::Damping => 1000,
            ParamId::Decay => 3000,
            ParamId::Mix => 1000,
        }
    }

    /// The largest setting the editor's slider offers for this parameter.
    pub fn max_setting(self) -> (s: i64)
        ensures
            s == max_of(self),
    {
        match self {
            ParamId::Decay => 9999,
            _ => SCALE,
        }
    }
}

/// Reading a parameter's index back through `from_index` gives the parameter.
pub proof fn law_index_round_trip(id: ParamId)
    ensures
        param_for_index(index_of(id)) == Some(id),
        0 <= index_of(id) < PARAM_COUNT,
{
}

/// An index names a parameter exactly when it lies in `0..PARAM_COUNT`, and
/// then it is that parameter's index: two host indices never share a slot.
pub proof fn law_index_names_one_param(index: i32, other: i32)
    ensures
        param_for_index(index) is Some <==> 0 <= index < PARAM_COUNT,
        param_for_index(index) matches Some(id) ==> index_of(id) == index,
        param_for_index(index) is Some && param_for_index(index) == param_for_index(other)
            ==> index == other,
{
}

/// Every default lies within its slider's range.
pub proof fn law_defaults_in_range(id: ParamId)
    ensures
        0 <= default_of(id) <= max_of(id),
        max_of(id) <= SCALE,
{
}

/// One value per parameter.
pub struct ParamValues<V> {
    bandwidth: V,
    damping: V,
    decay: V,
    mix: V,
}

impl<V> ParamValues<V> {
    /// The value held for `id`.
    pub closed spec fn value(&self, id: ParamId) -> V {
        match id {
            ParamId::Bandwidth => self.bandwidth,
            ParamId::Damping => self.damping,
            ParamId::Decay => self.decay,
            ParamId::Mix => self.mix,
        }
    }

    /// A store holding the four given values.
    pub fn new(bandwidth: V, damping: V, decay: V, mix: V) -> (p: Self)
        ensures
            p.value(ParamId::Bandwidth) == bandwidth,
            p.value(ParamId::Damping) == damping,
            p.value(ParamId::Decay) == decay,
            p.value(ParamId::Mix) == mix,
    {
        ParamValues { bandwidth, damping, decay, mix }
    }

    /// The value held for `id`.
    pub fn get(&self, id: ParamId) -> (v: &V)
        ensures
            *v == self.value(id),
    {
        match id {
            ParamId::Bandwidth => &self.bandwidth,
            ParamId::Damping => &self.damping,
            ParamId::Decay => &self.decay,
            ParamId::Mix => &self.mix,
        }
    }

    /// Replaces the value held for `id`; the other three stay as they were.
    pub fn set(&mut self, id: ParamId, v: V)
        ensures
            final(self).value(id) == v,
            forall|other: ParamId| other != id ==> final(self).value(other) == old(self).value(other),
    {
        match id {
            ParamId::Bandwidth => self.bandwidth = v,
            ParamId::Damping => self.damping = v,
            ParamId::Decay => self.decay = v,
            ParamId::Mix => self.mix = v,
        }
    }

    /// The value that the host means by `index`, or `None` for an index that
    /// names no parameter.
    pub fn at_index(&self, index: i32) -> (v: Option<&V>)
        ensures
            match param_for_index(index) {
                Some(id) => v == Some(&self.value(id)),
                None => v is None,
            },
    {
        match ParamId::from_index(index) {
            Some(id) => Some(self.get(id)),
            None => None,
        }
    }
}

} // verus!
