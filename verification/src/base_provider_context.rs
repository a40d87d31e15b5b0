//! The live values that a host supplies: score, colours, poses.
//!
//! A closed set of named channels, each of a fixed kind. The host writes
//! them between ticks; point definitions read them through base providers.
use crate::ffi::types::WrapBaseValueType;
use crate::ieee::{Scalar, ONE, ZERO};
use crate::text::{head_before_dot, is_head, same};
use crate::values::base::BaseProviderValues;
use crate::values::quat::QuaternionProviderValues;
use crate::values::value::BaseValue;
use crate::values::ValueProvider;
use vstd::prelude::*;

verus! {

/// How many channels there are.
pub const CHANNEL_COUNT: usize = 36;

/// The position of the channel that `name` names, if it names one.
pub open spec fn channel_index(name: Seq<char>) -> Option<int> {
    if name == "baseCombo"@ {
        Some(0int)
    } else if name == "baseMultipliedScore"@ {
        Some(1int)
    } else if name == "baseImmediateMaxPossibleMultipliedScore"@ {
        Some(2int)
    } else if name == "baseModifiedScore"@ {
        Some(3int)
    } else if name == "baseImmediateMaxPossibleModifiedScore"@ {
        Some(4int)
    } else if name == "baseRelativeScore"@ {
        Some(5int)
    } else if name == "baseMultiplier"@ {
        Some(6int)
    } else if name == "baseEnergy"@ {
        Some(7int)
    } else if name == "baseSongTime"@ {
        Some(8int)
    } else if name == "baseSongLength"@ {
        Some(9int)
    } else if name == "baseEnvironmentColor0"@ {
        Some(10int)
    } else if name == "baseEnvironmentColor0Boost"@ {
        Some(11int)
    } else if name == "baseEnvironmentColor1"@ {
        Some(12int)
    } else if name == "baseEnvironmentColor1Boost"@ {
        Some(13int)
    } else if name == "baseEnvironmentColorW"@ {
        Some(14int)
    } else if name == "baseEnvironmentColorWBoost"@ {
        Some(15int)
    } else if name == "baseNote0Color"@ {
        Some(16int)
    } else if name == "baseNote1Color"@ {
        Some(17int)
    } else if name == "baseObstaclesColor"@ {
        Some(18int)
    } else if name == "baseSaberAColor"@ {
        Some(19int)
    } else if name == "baseSaberBColor"@ {
        Some(20int)
    } else if name == "baseHeadLocalPosition"@ {
        Some(21int)
    } else if name == "baseHeadLocalRotation"@ {
        Some(22int)
    } else if name == "baseHeadLocalScale"@ {
        Some(23int)
    } else if name == "baseHeadPosition"@ {
        Some(24int)
    } else if name == "baseHeadRotation"@ {
        Some(25int)
    } else if name == "baseLeftHandLocalPosition"@ {
        Some(26int)
    } else if name == "baseLeftHandLocalRotation"@ {
        Some(27int)
    } else if name == "baseLeftHandLocalScale"@ {
        Some(28int)
    } else if name == "baseLeftHandPosition"@ {
        Some(29int)
    } else if name == "baseLeftHandRotation"@ {
        Some(30int)
    } else if name == "baseRightHandLocalPosition"@ {
        Some(31int)
    } else if name == "baseRightHandLocalRotation"@ {
        Some(32int)
    } else if name == "baseRightHandLocalScale"@ {
        Some(33int)
    } else if name == "baseRightHandPosition"@ {
        Some(34int)
    } else if name == "baseRightHandRotation"@ {
        Some(35int)
    } else {
        None
    }
}

/// The kind of the channel at position `index`: the score channels are
/// numbers, the colours 4-vectors, and of each pose the positions and the
/// scale are 3-vectors and the rotations rotations.
pub open spec fn channel_kind(index: int) -> WrapBaseValueType {
    if index < 10 {
        WrapBaseValueType::Float
    } else if index < 21 {
        WrapBaseValueType::Vec4
    } else if (index - 21) % 5 == 1 || (index - 21) % 5 == 4 {
        WrapBaseValueType::Quat
    } else {
        WrapBaseValueType::Vec3
    }
}

/// Whether `name` names a channel.
pub open spec fn is_channel(name: Seq<char>) -> bool {
    channel_index(name) is Some
}

/// The value that a channel of kind `kind` holds before the host sets it:
/// zeros, and the rotation that turns nothing (x = y = z = 0, w = 1).
pub open spec fn initial_value(kind: WrapBaseValueType) -> BaseValue {
    match kind {
        WrapBaseValueType::Vec3 => BaseValue::Vector3([ZERO, ZERO, ZERO]),
        WrapBaseValueType::Quat => BaseValue::Quaternion([ZERO, ZERO, ZERO, ONE]),
        WrapBaseValueType::Vec4 => BaseValue::Vector4([ZERO, ZERO, ZERO, ZERO]),
        _ => BaseValue::Float(ZERO),
    }
}

/// The position of the channel that `name` names: `Some` exactly for the
/// names of channels.
pub fn find_channel(name: &str) -> (r: Option<usize>)
    ensures
        match r {
            Some(i) => channel_index(name@) == Some(i as int) && i < CHANNEL_COUNT,
            None => channel_index(name@) is None,
        },
{
    if same(name, "baseCombo") {
        Some(0)
    } else if same(name, "baseMultipliedScore") {
        Some(1)
    } else if same(name, "baseImmediateMaxPossibleMultipliedScore") {
        Some(2)
    } else if same(name, "baseModifiedScore") {
        Some(3)
    } else if same(name, "baseImmediateMaxPossibleModifiedScore") {
        Some(4)
    } else if same(name, "baseRelativeScore") {
        Some(5)
    } else if same(name, "baseMultiplier") {
        Some(6)
    } else if same(name, "baseEnergy") {
        Some(7)
    } else if same(name, "baseSongTime") {
        Some(8)
    } else if same(name, "baseSongLength") {
        Some(9)
    } else if same(name, "baseEnvironmentColor0") {
        Some(10)
    } else if same(name, "baseEnvironmentColor0Boost") {
        Some(11)
    } else if same(name, "baseEnvironmentColor1") {
        Some(12)
    } else if same(name, "baseEnvironmentColor1Boost") {
        Some(13)
    } else if same(name, "baseEnvironmentColorW") {
        Some(14)
    } else if same(name, "baseEnvironmentColorWBoost") {
        Some(15)
    } else if same(name, "baseNote0Color") {
        Some(16)
    } else if same(name, "baseNote1Color") {
        Some(17)
    } else if same(name, "baseObstaclesColor") {
        Some(18)
    } else if same(name, "baseSaberAColor") {
        Some(19)
    } else if same(name, "baseSaberBColor") {
        Some(20)
    } else if same(name, "baseHeadLocalPosition") {
        Some(21)
    } else if same(name, "baseHeadLocalRotation") {
        Some(22)
    } else if same(name, "baseHeadLocalScale") {
        Some(23)
    } else if same(name, "baseHeadPosition") {
        Some(24)
    } else if same(name, "baseHeadRotation") {
        Some(25)
    } else if same(name, "baseLeftHandLocalPosition") {
        Some(26)
    } else if same(name, "baseLeftHandLocalRotation") {
        Some(27)
    } else if same(name, "baseLeftHandLocalScale") {
        Some(28)
    } else if same(name, "baseLeftHandPosition") {
        Some(29)
    } else if same(name, "baseLeftHandRotation") {
        Some(30)
    } else if same(name, "baseRightHandLocalPosition") {
        Some(31)
    } else if same(name, "baseRightHandLocalRotation") {
        Some(32)
    } else if same(name, "baseRightHandLocalScale") {
        Some(33)
    } else if same(name, "baseRightHandPosition") {
        Some(34)
    } else if same(name, "baseRightHandRotation") {
        Some(35)
    } else {
        None
    }
}

/// The kind of the channel at position `index`.
pub fn kind_of_channel(index: usize) -> (r: WrapBaseValueType)
    requires
        index < CHANNEL_COUNT,
    ensures
        r == channel_kind(index as int),
{
    if index < 10 {
        WrapBaseValueType::Float
    } else if index < 21 {
        WrapBaseValueType::Vec4
    } else {
        let place: usize = (index - 21) % 5;
        if place == 1 || place == 4 {
            WrapBaseValueType::Quat
        } else {
            WrapBaseValueType::Vec3
        }
    }
}

/// The values of all channels.
pub struct BaseProviderContext {
    /// One value per channel, by position.
    values: Vec<BaseValue>,
}

impl View for BaseProviderContext {
    type V = Seq<BaseValue>;

    /// The value of each channel, by position.
    closed spec fn view(&self) -> Seq<BaseValue> {
        self.values@
    }
}

impl BaseProviderContext {
    /// Every channel has a value, and of the channel's kind.
    pub open spec fn wf(&self) -> bool {
        &&& self@.len() == CHANNEL_COUNT
        &&& forall|i: int| 0 <= i < CHANNEL_COUNT ==> (#[trigger] self@[i]).kind() == channel_kind(i)
    }

    /// The value of the channel that `name` names.
    pub open spec fn value_of(&self, name: Seq<char>) -> BaseValue {
        self@[channel_index(name).unwrap()]
    }

    /// All channels at their initial values.
    pub fn new() -> (r: BaseProviderContext)
        ensures
            r.wf(),
            forall|i: int| 0 <= i < CHANNEL_COUNT ==> #[trigger] r@[i] == initial_value(channel_kind(i)),
    {
        let mut values: Vec<BaseValue> = Vec::new();
        let mut i: usize = 0;
        while i < CHANNEL_COUNT
            invariant
                i <= CHANNEL_COUNT,
                values@.len() == i,
                forall|j: int| 0 <= j < i ==> #[trigger] values@[j] == initial_value(channel_kind(j)),
            decreases CHANNEL_COUNT - i,
        {
            let value = match kind_of_channel(i) {
                WrapBaseValueType::Vec3 => BaseValue::Vector3([ZERO, ZERO, ZERO]),
                WrapBaseValueType::Quat => BaseValue::Quaternion([ZERO, ZERO, ZERO, ONE]),
                WrapBaseValueType::Vec4 => BaseValue::Vector4([ZERO, ZERO, ZERO, ZERO]),
                _ => BaseValue::Float(ZERO),
            };
            values.push(value);
            i = i + 1;
        }
        BaseProviderContext { values }
    }

    /// Whether `name` names a channel.
    pub fn has_channel(&self, name: &str) -> (r: bool)
        ensures
            r == is_channel(name@),
    {
        find_channel(name).is_some()
    }

    /// The kind of the channel that `base` names. An unknown name is a
    /// usage error.
    pub fn get_type(&self, base: &str) -> (r: WrapBaseValueType)
        requires
            is_channel(base@),
        ensures
            r == channel_kind(channel_index(base@).unwrap()),
    {
        match find_channel(base) {
            Some(i) => kind_of_channel(i),
            None => WrapBaseValueType::Unknown,
        }
    }

    /// The value of the channel that `base` names. An unknown name is a
    /// usage error.
    pub fn get_values(&self, base: &str) -> (r: &BaseValue)
        requires
            self.wf(),
            is_channel(base@),
        ensures
            *r == self.value_of(base@),
            r.kind() == channel_kind(channel_index(base@).unwrap()),
    {
        match find_channel(base) {
            Some(i) => &self.values[i],
            None => &self.values[0],
        }
    }

    /// The numbers of the channel that `base` names, in place.
    pub fn slice(&self, base: &str) -> (r: &[Scalar])
        requires
            self.wf(),
            is_channel(base@),
        ensures
            r@ == self.value_of(base@)@,
    {
        self.get_values(base).as_slice()
    }

    /// Writes `values` to the channel that `base` names and leaves every
    /// other channel as it was. An unknown name is a usage error, and so
    /// is a value that is not of the channel's kind.
    pub fn set_values(&mut self, base: &str, values: BaseValue)
        requires
            old(self).wf(),
            is_channel(base@),
            values.kind() == channel_kind(channel_index(base@).unwrap()),
        ensures
            final(self).wf(),
            final(self)@ == old(self)@.update(channel_index(base@).unwrap(), values),
    {
        match find_channel(base) {
            Some(i) => {
                self.values[i] = values;
            },
            None => {},
        }
    }
}

/// The provider that reads the channel `name`: a base provider, wrapped
/// into a provider of angles where the channel holds a rotation.
pub open spec fn is_provider_of(provider: ValueProvider, name: Seq<char>) -> bool {
    if channel_kind(channel_index(name).unwrap()) == WrapBaseValueType::Quat {
        provider matches ValueProvider::QuaternionProvider(q) && *q.source
            matches ValueProvider::BaseProvider(b) && b.base@ == name
    } else {
        provider matches ValueProvider::BaseProvider(b) && b.base@ == name
    }
}

/// The provider that reads the channel named `name`.
pub fn provider_for_channel(name: &str) -> (r: ValueProvider)
    requires
        is_channel(name@),
    ensures
        is_provider_of(r, name@),
        r.wf(),
        r.is_live(),
        r.width() == 1 || r.width() == 3 || r.width() == 4,
{
    let base_value = ValueProvider::BaseProvider(BaseProviderValues::new(name.to_owned()));
    proof {
        reveal_with_fuel(ValueProvider::wf, 2);
        reveal_with_fuel(ValueProvider::is_live, 2);
        reveal_with_fuel(ValueProvider::width, 2);
    }
    let kind = match find_channel(name) {
        Some(i) => kind_of_channel(i),
        None => WrapBaseValueType::Unknown,
    };
    match kind {
        WrapBaseValueType::Quat => ValueProvider::QuaternionProvider(
            QuaternionProviderValues::new(base_value),
        ),
        _ => base_value,
    }
}

impl BaseProviderContext {
    /// The provider for the channel that `base` names before its first
    /// `.`. An unknown channel is a usage error.
    pub fn get_value_provider(&self, base: &str) -> (r: ValueProvider)
        requires
            forall|head: Seq<char>| is_head(base@, head) ==> is_channel(head),
        ensures
            exists|head: Seq<char>| #[trigger] is_head(base@, head) && is_provider_of(r, head),
            r.wf(),
            r.is_live(),
            r.width() == 1 || r.width() == 3 || r.width() == 4,
    {
        let base_name = head_before_dot(base);
        assert(is_head(base@, base_name@));
        provider_for_channel(base_name)
    }
}

impl Default for BaseProviderContext {
    fn default() -> (r: BaseProviderContext)
        ensures
            r.wf(),
    {
        BaseProviderContext::new()
    }
}

} // verus!
