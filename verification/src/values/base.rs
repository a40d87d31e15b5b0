//! A provider that reads a channel of the host.
use crate::base_provider_context::{
    channel_index, channel_kind, find_channel, is_channel, kind_of_channel, BaseProviderContext,
};
use crate::ffi::types::WrapBaseValueType;
use crate::ieee::Scalar;
use vstd::prelude::*;

verus! {

/// The name of a channel, whose value is read each time the provider is
/// asked.
#[derive(Debug)]
pub struct BaseProviderValues {
    pub base: String,
}

impl BaseProviderValues {
    /// A provider that reads the channel named `base`.
    pub fn new(base: String) -> (r: BaseProviderValues)
        ensures
            r.base == base,
    {
        Self { base }
    }

    /// The provider names a channel that exists.
    pub open spec fn wf(&self) -> bool {
        is_channel(self.base@)
    }

    /// How many numbers the provider gives.
    pub open spec fn width(&self) -> nat {
        channel_kind(channel_index(self.base@).unwrap()).width()
    }

    /// How many numbers the provider gives.
    pub fn count(&self) -> (r: usize)
        requires
            self.wf(),
        ensures
            r == self.width(),
    {
        match find_channel(self.base.as_str()) {
            Some(i) => match kind_of_channel(i) {
                WrapBaseValueType::Float => 1,
                WrapBaseValueType::Vec3 => 3,
                _ => 4,
            },
            None => 0,
        }
    }

    /// The numbers of the channel, as `context` holds them now.
    pub fn values(&self, context: &BaseProviderContext) -> (r: Vec<Scalar>)
        requires
            self.wf(),
            context.wf(),
        ensures
            r@ == context.value_of(self.base@)@,
            r@.len() == self.width(),
    {
        let value = context.get_values(self.base.as_str());
        let _ = value.len();
        vstd::slice::slice_to_vec(value.as_slice())
    }
}

} // verus!
