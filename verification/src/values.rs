//! Values and the providers that produce them.
pub mod base;
pub mod partial;
pub mod quat;
pub mod smooth;
pub mod smooth_rot;
pub mod static_values;
pub mod value;

use crate::base_provider_context::BaseProviderContext;
use crate::ieee::{clamp_unit, unit_clamp, Scalar, ZERO};
use crate::numerics::{is_euler_of, is_lerp_each, lerp, Numerics};
use base::BaseProviderValues;
use partial::PartialProviderValues;
use quat::QuaternionProviderValues;
use smooth::SmoothProvidersValues;
use smooth_rot::SmoothRotationProvidersValues;
use static_values::StaticValues;
use vstd::prelude::*;

verus! {

/// A producer of a short list of numbers.
#[derive(Debug)]
pub enum ValueProvider {
    /// Fixed numbers.
    Static(StaticValues),
    /// The numbers of a channel of the host.
    BaseProvider(BaseProviderValues),
    /// The angles of the rotation that another provider gives.
    QuaternionProvider(QuaternionProviderValues),
    /// Numbers picked out of a longer list.
    PartialProvider(PartialProviderValues),
    /// Numbers that follow those of another provider.
    SmoothProviders(SmoothProvidersValues),
    /// The angles of a rotation that follows a target.
    SmoothRotationProviders(SmoothRotationProvidersValues),
}

/// The first four numbers of `s`, as a rotation.
pub open spec fn first_four(s: Seq<Scalar>) -> [Scalar; 4] {
    [s[0], s[1], s[2], s[3]]
}

/// `len` zeros.
pub open spec fn zeros(len: nat) -> Seq<Scalar> {
    Seq::new(len, |i: int| ZERO)
}

/// `len` zeros.
pub fn make_zeros(len: usize) -> (r: Vec<Scalar>)
    ensures
        r@ == zeros(len as nat),
{
    let mut r: Vec<Scalar> = Vec::new();
    let mut i: usize = 0;
    while i < len
        invariant
            i <= len,
            r@ == zeros(i as nat),
        decreases len - i,
    {
        r.push(ZERO);
        i = i + 1;
        assert(r@ =~= zeros(i as nat));
    }
    r
}

impl ValueProvider {
    /// How many numbers the provider gives.
    pub open spec fn width(&self) -> nat
        decreases self,
    {
        match self {
            ValueProvider::Static(v) => v@.len(),
            ValueProvider::BaseProvider(v) => v.width(),
            ValueProvider::QuaternionProvider(_) => 3,
            ValueProvider::PartialProvider(v) => v.values@.len(),
            ValueProvider::SmoothProviders(v) => v.source.width(),
            ValueProvider::SmoothRotationProviders(_) => 3,
        }
    }

    /// The provider can be asked: a channel it reads exists, a rotation it
    /// converts has four numbers, the places it picks exist.
    pub open spec fn wf(&self) -> bool
        decreases self,
    {
        match self {
            ValueProvider::Static(_) => true,
            ValueProvider::BaseProvider(v) => v.wf(),
            ValueProvider::QuaternionProvider(v) => v.source.wf() && v.source.width() >= 4,
            ValueProvider::PartialProvider(v) => v.wf(),
            ValueProvider::SmoothProviders(v) => v.source.wf(),
            ValueProvider::SmoothRotationProviders(_) => true,
        }
    }

    /// Whether the provider reads a channel of the host, itself or through
    /// the provider it wraps.
    pub open spec fn is_live(&self) -> bool
        decreases self,
    {
        match self {
            ValueProvider::BaseProvider(_) => true,
            ValueProvider::QuaternionProvider(v) => v.source.is_live(),
            ValueProvider::SmoothProviders(v) => v.source.is_live(),
            _ => false,
        }
    }

    /// `out` are numbers that the provider gives under `context`, with the
    /// arithmetic of `n`.
    pub open spec fn provides<N: Numerics>(
        &self,
        n: &N,
        context: &BaseProviderContext,
        out: Seq<Scalar>,
    ) -> bool
        decreases self,
    {
        match self {
            ValueProvider::Static(v) => out == v@,
            ValueProvider::BaseProvider(v) => out == context.value_of(v.base@)@,
            ValueProvider::QuaternionProvider(v) => exists|rotation: Seq<Scalar>, angles: [Scalar; 3]|
                #![trigger is_euler_of(n, first_four(rotation), angles)]
                {
                    &&& v.source.provides(n, context, rotation)
                    &&& is_euler_of(n, first_four(rotation), angles)
                    &&& out == angles@
                },
            ValueProvider::PartialProvider(v) => out == v.values@,
            ValueProvider::SmoothProviders(v) => out == (if v.values@.len() == v.source.width() {
                v.values@
            } else {
                zeros(v.source.width())
            }),
            ValueProvider::SmoothRotationProviders(v) => out == v.values@,
        }
    }

    /// The numbers of the provider under `context`.
    pub fn values<N: Numerics>(&self, context: &BaseProviderContext, n: &N) -> (r: Vec<Scalar>)
        requires
            self.wf(),
            context.wf(),
        ensures
            self.provides(n, context, r@),
            r@.len() == self.width(),
        decreases self,
    {
        match self {
            ValueProvider::Static(v) => v.values(),
            ValueProvider::BaseProvider(v) => v.values(context),
            ValueProvider::QuaternionProvider(v) => {
                let rotation = v.source.values(context, n);
                let quat = [rotation[0], rotation[1], rotation[2], rotation[3]];
                let angles = n.quat_to_euler(quat);
                assert(quat =~= first_four(rotation@));
                assert(is_euler_of(n, first_four(rotation@), angles));
                vstd::slice::slice_to_vec(angles.as_slice())
            },
            ValueProvider::PartialProvider(v) => v.values(),
            ValueProvider::SmoothProviders(v) => {
                let width = v.source.values(context, n).len();
                if v.values.len() == width {
                    v.values.clone()
                } else {
                    make_zeros(width)
                }
            },
            ValueProvider::SmoothRotationProviders(v) => v.values(),
        }
    }

    /// How many numbers the provider gives.
    pub fn count(&self) -> (r: usize)
        requires
            self.wf(),
        ensures
            r == self.width(),
        decreases self,
    {
        match self {
            ValueProvider::Static(v) => v.len(),
            ValueProvider::BaseProvider(v) => v.count(),
            ValueProvider::QuaternionProvider(_) => 3,
            ValueProvider::PartialProvider(v) => v.values.len(),
            ValueProvider::SmoothProviders(v) => v.source.count(),
            ValueProvider::SmoothRotationProviders(_) => 3,
        }
    }

    /// Whether the provider reads a channel of the host.
    pub fn has_base_provider(&self) -> (r: bool)
        ensures
            r == self.is_live(),
        decreases self,
    {
        match self {
            ValueProvider::BaseProvider(_) => true,
            ValueProvider::QuaternionProvider(v) => v.source.has_base_provider(),
            ValueProvider::SmoothProviders(v) => v.source.has_base_provider(),
            _ => false,
        }
    }
}

impl QuaternionProviderValues {
    /// The angles of the rotation that the wrapped provider gives.
    pub fn values<N: Numerics>(&self, context: &BaseProviderContext, n: &N) -> (r: Vec<Scalar>)
        requires
            self.source.wf(),
            self.source.width() >= 4,
            context.wf(),
        ensures
            r@.len() == 3,
            exists|rotation: Seq<Scalar>, angles: [Scalar; 3]|
                #![trigger is_euler_of(n, first_four(rotation), angles)]
                {
                    &&& self.source.provides(n, context, rotation)
                    &&& is_euler_of(n, first_four(rotation), angles)
                    &&& r@ == angles@
                },
    {
        let rotation = self.source.values(context, n);
        let quat = [rotation[0], rotation[1], rotation[2], rotation[3]];
        let angles = n.quat_to_euler(quat);
        let r = vstd::slice::slice_to_vec(angles.as_slice());
        assert(quat =~= first_four(rotation@));
        assert(is_euler_of(n, first_four(rotation@), angles));
        r
    }
}

impl SmoothProvidersValues {
    /// The numbers from which the next update starts: those held, or
    /// zeros where their count is not that of the source.
    pub open spec fn current(&self) -> Seq<Scalar> {
        if self.values@.len() == self.source.width() {
            self.values@
        } else {
            zeros(self.source.width())
        }
    }

    /// `after` is this provider after an update by `delta` under
    /// `context`, with the arithmetic of `n`: every number has moved from
    /// where it stood towards the number that the source gives, by the
    /// linear blend of the two at `delta` limited to the range from zero
    /// to one.
    pub open spec fn follows<N: Numerics>(
        &self,
        n: &N,
        context: &BaseProviderContext,
        delta: Scalar,
        after: SmoothProvidersValues,
    ) -> bool {
        &&& after.source == self.source
        &&& after.mult == self.mult
        &&& after.has_updated
        &&& exists|target: Seq<Scalar>| #[trigger]
            self.source.provides(n, context, target) && is_lerp_each(
                n,
                self.current(),
                target,
                unit_clamp(delta),
                after.values@,
            )
    }

    /// The numbers held, or zeros where their count is not that of the
    /// source.
    pub fn values<N: Numerics>(&self, context: &BaseProviderContext, n: &N) -> (r: Vec<Scalar>)
        requires
            self.source.wf(),
            context.wf(),
        ensures
            r@ == self.current(),
    {
        let width = self.source.values(context, n).len();
        if self.values.len() == width {
            self.values.clone()
        } else {
            make_zeros(width)
        }
    }

    /// Moves every number towards that of the source: the linear blend of
    /// the two at `delta` limited to the range from zero to one.
    pub fn update<N: Numerics>(&mut self, delta: Scalar, context: &BaseProviderContext, n: &N)
        requires
            old(self).source.wf(),
            context.wf(),
        ensures
            old(self).follows(n, context, delta, *final(self)),
    {
        self.has_updated = true;
        let target = self.source.values(context, n);
        if self.values.len() != target.len() {
            self.values = make_zeros(target.len());
        }
        let ghost start = self.values@;
        assert(start == old(self).current());
        let t = clamp_unit(delta);
        let mut i: usize = 0;
        while i < self.values.len()
            invariant
                i <= self.values@.len(),
                self.values@.len() == start.len(),
                start.len() == target@.len(),
                self.source == old(self).source,
                self.mult == old(self).mult,
                self.has_updated,
                forall|j: int| i <= j < start.len() ==> #[trigger] self.values@[j] == start[j],
                forall|j: int|
                    0 <= j < i ==> crate::numerics::is_lerp(
                        n,
                        start[j],
                        target@[j],
                        t,
                        #[trigger] self.values@[j],
                    ),
            decreases self.values@.len() - i,
        {
            let moved = lerp(n, self.values[i], target[i], t);
            self.values[i] = moved;
            i = i + 1;
        }
        assert(old(self).source.provides(n, context, target@));
    }
}

impl ValueProvider {
    /// Advances the state of a provider that has one; the others are left
    /// as they are.
    pub fn update<N: Numerics>(&mut self, delta: Scalar, context: &BaseProviderContext, n: &N)
        requires
            old(self).wf(),
            context.wf(),
        ensures
            match (*old(self), *final(self)) {
                (ValueProvider::PartialProvider(before), ValueProvider::PartialProvider(after)) => {
                    &&& after.source == before.source
                    &&& after.parts == before.parts
                    &&& after.values@ == before.picked()
                },
                (
                    ValueProvider::SmoothProviders(before),
                    ValueProvider::SmoothProviders(after),
                ) => before.follows(n, context, delta, after),
                (
                    ValueProvider::SmoothRotationProviders(before),
                    ValueProvider::SmoothRotationProviders(after),
                ) => before.turns_to(n, delta, after),
                (before, after) => before == after,
            },
    {
        match self {
            ValueProvider::PartialProvider(v) => v.update(delta),
            ValueProvider::SmoothProviders(v) => v.update(delta, context, n),
            ValueProvider::SmoothRotationProviders(v) => v.update(delta, n),
            _ => {},
        }
    }
}

/// The values of a written keyframe before they become a provider: fixed
/// numbers, or the name of a channel.
#[derive(Debug)]
pub enum JsonPointValues {
    Static(Vec<Scalar>),
    BaseProvider(BaseProviderValues),
}

impl JsonPointValues {
    /// The provider of these values.
    pub fn to_provider(self) -> (r: ValueProvider)
        ensures
            match self {
                JsonPointValues::Static(v) => r matches ValueProvider::Static(s) && s@ == v@,
                JsonPointValues::BaseProvider(v) => r == ValueProvider::BaseProvider(v),
            },
    {
        match self {
            JsonPointValues::Static(v) => ValueProvider::Static(StaticValues::new(v.as_slice())),
            JsonPointValues::BaseProvider(v) => ValueProvider::BaseProvider(v),
        }
    }

    /// The numbers of these values under `context`.
    pub fn to_raw_values(&self, context: &BaseProviderContext) -> (r: Vec<Scalar>)
        requires
            context.wf(),
            *self matches JsonPointValues::BaseProvider(v) ==> v.wf(),
        ensures
            r@ == (match *self {
                JsonPointValues::Static(v) => v@,
                JsonPointValues::BaseProvider(v) => context.value_of(v.base@)@,
            }),
    {
        match self {
            JsonPointValues::Static(v) => v.clone(),
            JsonPointValues::BaseProvider(v) => v.values(context),
        }
    }
}

} // verus!
