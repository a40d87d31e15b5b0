//! Arithmetic trees over value providers.
//!
//! A modifier holds the numbers it starts from, fixed or read from
//! providers, and a list of child modifiers of its own kind. Its value is
//! the left fold of the children over the start: each child's operation
//! combines the running value with the child's own value, place by place.
//! Rotations are folded as three angles in degrees and turned into a
//! rotation at the end.
pub mod float_modifier;
pub mod operation;
pub mod quaternion_modifier;
pub mod vector3_modifier;
pub mod vector4_modifier;

use crate::base_provider_context::BaseProviderContext;
use crate::ffi::types::WrapBaseValueType;
use crate::ieee::Scalar;
use crate::numerics::{combine, is_combined, is_combined_each, is_quat_of, Numerics};
use crate::values::ValueProvider;
use float_modifier::FloatModifier;
use operation::Operation;
use quaternion_modifier::{QuaternionModifier, QuaternionValues};
use vector3_modifier::Vector3Modifier;
use vector4_modifier::Vector4Modifier;
use vstd::prelude::*;

verus! {

/// What a modifier starts from: a fixed value, or providers asked anew at
/// every evaluation.
#[derive(Debug)]
pub enum ModifierValues<T> {
    Static(T),
    Dynamic(Vec<ValueProvider>),
}

/// A modifier of one of the four kinds.
#[derive(Debug)]
pub enum Modifier {
    Float(FloatModifier),
    Vector3(Vector3Modifier),
    Vector4(Vector4Modifier),
    Quaternion(QuaternionModifier),
}

impl<T> ModifierValues<T> {
    /// The fixed value, where there is one.
    pub fn static_values(self) -> (r: Option<T>)
        ensures
            r == (match self {
                ModifierValues::Static(s) => Some(s),
                ModifierValues::Dynamic(_) => None,
            }),
    {
        match self {
            ModifierValues::Static(s) => Some(s),
            _ => None,
        }
    }

    /// The fixed value, where there is one.
    pub fn as_static_values(&self) -> (r: Option<&T>)
        ensures
            r == (match *self {
                ModifierValues::Static(s) => Some(&s),
                ModifierValues::Dynamic(_) => None,
            }),
    {
        match self {
            ModifierValues::Static(s) => Some(s),
            _ => None,
        }
    }
}

/// How many numbers the first `count` of `providers` give together.
pub open spec fn total_width(providers: Seq<ValueProvider>, count: nat) -> nat
    decreases count,
{
    if count == 0 || count > providers.len() {
        0
    } else {
        total_width(providers, (count - 1) as nat) + providers[count - 1].width()
    }
}

/// Every one of `providers` can be asked.
pub open spec fn all_wf(providers: Seq<ValueProvider>) -> bool {
    forall|i: int| 0 <= i < providers.len() ==> (#[trigger] providers[i]).wf()
}

/// `out` are numbers that the first `count` of `providers` give, one
/// provider's numbers after the other's.
pub open spec fn gathers<N: Numerics>(
    n: &N,
    context: &BaseProviderContext,
    providers: Seq<ValueProvider>,
    count: nat,
    out: Seq<Scalar>,
) -> bool
    decreases count,
{
    if count == 0 || count > providers.len() {
        out.len() == 0
    } else {
        exists|head: Seq<Scalar>, last: Seq<Scalar>|
            #![trigger head + last]
            {
                &&& gathers(n, context, providers, (count - 1) as nat, head)
                &&& providers[count - 1].provides(n, context, last)
                &&& out == head + last
            }
    }
}

/// The numbers of all of `providers`, one provider's after the other's.
pub fn gather<N: Numerics>(
    providers: &Vec<ValueProvider>,
    context: &BaseProviderContext,
    n: &N,
) -> (r: Vec<Scalar>)
    requires
        all_wf(providers@),
        context.wf(),
    ensures
        gathers(n, context, providers@, providers@.len(), r@),
        r@.len() == total_width(providers@, providers@.len()),
{
    let mut r: Vec<Scalar> = Vec::new();
    let mut i: usize = 0;
    while i < providers.len()
        invariant
            i <= providers@.len(),
            all_wf(providers@),
            context.wf(),
            gathers(n, context, providers@, i as nat, r@),
            r@.len() == total_width(providers@, i as nat),
        decreases providers@.len() - i,
    {
        let ghost head = r@;
        let mut last = providers[i].values(context, n);
        let ghost tail = last@;
        r.append(&mut last);
        i = i + 1;
        assert(r@ == head + tail);
    }
    r
}

/// The first `arity` of the numbers of all of `providers`.
pub fn first_numbers<N: Numerics>(
    providers: &Vec<ValueProvider>,
    arity: usize,
    context: &BaseProviderContext,
    n: &N,
) -> (r: Vec<Scalar>)
    requires
        all_wf(providers@),
        context.wf(),
        total_width(providers@, providers@.len()) >= arity,
    ensures
        exists|all: Seq<Scalar>|
            #![trigger all.take(arity as int)]
            gathers(n, context, providers@, providers@.len(), all) && r@ == all.take(arity as int),
        r@.len() == arity,
{
    let mut all = gather(providers, context, n);
    let ghost whole = all@;
    all.truncate(arity);
    assert(all@ == whole.take(arity as int));
    all
}

/// How many numbers `providers` give together, or nothing where the count
/// does not fit the machine.
pub fn count_numbers(providers: &Vec<ValueProvider>) -> (r: Option<usize>)
    requires
        all_wf(providers@),
    ensures
        match r {
            Some(count) => count == total_width(providers@, providers@.len()),
            None => total_width(providers@, providers@.len()) > usize::MAX,
        },
{
    let mut total: usize = 0;
    let mut i: usize = 0;
    while i < providers.len()
        invariant
            i <= providers@.len(),
            all_wf(providers@),
            total == total_width(providers@, i as nat),
        decreases providers@.len() - i,
    {
        let width = providers[i].count();
        match total.checked_add(width) {
            Some(sum) => {
                total = sum;
            },
            None => {
                proof {
                    lemma_total_width_grows(providers@, (i + 1) as nat, providers@.len());
                }
                return None;
            },
        }
        i = i + 1;
    }
    Some(total)
}

/// More providers give no fewer numbers.
pub proof fn lemma_total_width_grows(providers: Seq<ValueProvider>, few: nat, many: nat)
    requires
        few <= many <= providers.len(),
    ensures
        total_width(providers, few) <= total_width(providers, many),
    decreases many,
{
    if few < many {
        lemma_total_width_grows(providers, few, (many - 1) as nat);
    }
}

impl Modifier {
    /// The kind of the modifier.
    pub open spec fn kind(self) -> WrapBaseValueType {
        match self {
            Modifier::Float(_) => WrapBaseValueType::Float,
            Modifier::Vector3(_) => WrapBaseValueType::Vec3,
            Modifier::Vector4(_) => WrapBaseValueType::Vec4,
            Modifier::Quaternion(_) => WrapBaseValueType::Quat,
        }
    }

    /// The child modifiers, in the order in which they are applied.
    pub open spec fn children(self) -> Seq<Modifier> {
        match self {
            Modifier::Float(m) => m.modifiers@,
            Modifier::Vector3(m) => m.modifiers@,
            Modifier::Vector4(m) => m.modifiers@,
            Modifier::Quaternion(m) => m.modifiers@,
        }
    }

    /// The operation by which the modifier combines with what stands
    /// before it.
    pub open spec fn operation(self) -> Operation {
        match self {
            Modifier::Float(m) => m.operation,
            Modifier::Vector3(m) => m.operation,
            Modifier::Vector4(m) => m.operation,
            Modifier::Quaternion(m) => m.operation,
        }
    }

    /// The flag that the modifier carries for "reads a channel of the
    /// host".
    pub open spec fn flag(self) -> bool {
        match self {
            Modifier::Float(m) => m.has_base_provider,
            Modifier::Vector3(m) => m.has_base_provider,
            Modifier::Vector4(m) => m.has_base_provider,
            Modifier::Quaternion(m) => m.has_base_provider,
        }
    }

    /// The providers that the modifier starts from; none where it starts
    /// from a fixed value.
    pub open spec fn providers(self) -> Seq<ValueProvider> {
        match self {
            Modifier::Float(m) => match m.values {
                ModifierValues::Dynamic(p) => p@,
                _ => Seq::empty(),
            },
            Modifier::Vector3(m) => match m.values {
                ModifierValues::Dynamic(p) => p@,
                _ => Seq::empty(),
            },
            Modifier::Vector4(m) => match m.values {
                ModifierValues::Dynamic(p) => p@,
                _ => Seq::empty(),
            },
            Modifier::Quaternion(m) => match m.values {
                QuaternionValues::Dynamic(p) => p@,
                _ => Seq::empty(),
            },
        }
    }

    /// The fixed numbers that the modifier starts from, where it has them;
    /// for a rotation, its three angles.
    pub open spec fn fixed(self) -> Option<Seq<Scalar>> {
        match self {
            Modifier::Float(m) => match m.values {
                ModifierValues::Static(s) => Some(seq![s]),
                _ => None,
            },
            Modifier::Vector3(m) => match m.values {
                ModifierValues::Static(s) => Some(s@),
                _ => None,
            },
            Modifier::Vector4(m) => match m.values {
                ModifierValues::Static(s) => Some(s@),
                _ => None,
            },
            Modifier::Quaternion(m) => match m.values {
                QuaternionValues::Static(angles, _) => Some(angles@),
                _ => None,
            },
        }
    }

    /// Whether the modifier, or one below it, starts from providers.
    pub open spec fn live(self) -> bool
        decreases self,
    {
        self.fixed() is None || exists|i: int|
            0 <= i < self.children().len() && (#[trigger] self.children()[i]).live()
    }

    /// The modifier can be evaluated: its providers can be asked and give
    /// at least as many numbers as its kind is built from, its children
    /// are of its kind and can be evaluated, and its flag says whether it
    /// is live.
    pub open spec fn wf(self) -> bool
        decreases self,
    {
        &&& all_wf(self.providers())
        &&& self.fixed() is None ==> total_width(self.providers(), self.providers().len())
            >= self.kind().arity()
        &&& forall|i: int|
            0 <= i < self.children().len() ==> (#[trigger] self.children()[i]).kind() == self.kind()
                && self.children()[i].wf()
        &&& self.flag() == self.live()
    }

    /// `out` are numbers that the modifier starts from: its fixed numbers,
    /// or the first numbers, as many as its kind is built from, of those
    /// that its providers give one after the other.
    pub open spec fn starts_from<N: Numerics>(
        self,
        n: &N,
        context: &BaseProviderContext,
        out: Seq<Scalar>,
    ) -> bool {
        match self.fixed() {
            Some(numbers) => out == numbers,
            None => exists|all: Seq<Scalar>|
                #![trigger all.take(self.kind().arity() as int)]
                gathers(n, context, self.providers(), self.providers().len(), all) && out
                    == all.take(self.kind().arity() as int),
        }
    }

    /// `out` are numbers that evaluation of the modifier gives: its start,
    /// folded with its children from the first to the last.
    pub open spec fn yields<N: Numerics>(
        self,
        n: &N,
        context: &BaseProviderContext,
        out: Seq<Scalar>,
    ) -> bool
        decreases self, 1nat, 0nat,
    {
        exists|start: Seq<Scalar>|
            #![trigger self.starts_from(n, context, start)]
            {
                &&& self.starts_from(n, context, start)
                &&& folds(self, n, context, start, self.children().len(), out)
            }
    }
}

/// `out` are numbers that the first `count` children of `parent` give when
/// folded over `start`: each child's operation combines what the children
/// before it gave with the child's own numbers, place by place.
pub open spec fn folds<N: Numerics>(
    parent: Modifier,
    n: &N,
    context: &BaseProviderContext,
    start: Seq<Scalar>,
    count: nat,
    out: Seq<Scalar>,
) -> bool
    decreases parent, 0nat, count,
{
    if count == 0 || count > parent.children().len() {
        out == start
    } else {
        exists|before: Seq<Scalar>, own: Seq<Scalar>|
            #![trigger is_combined_each(n, parent.children()[count - 1].operation(), before, own, out)]
            {
                &&& folds(parent, n, context, start, (count - 1) as nat, before)
                &&& parent.children()[count - 1].yields(n, context, own)
                &&& is_combined_each(
                    n,
                    parent.children()[count - 1].operation(),
                    before,
                    own,
                    out,
                )
            }
    }
}

/// Whether a modifier that is dynamic as `is_dynamic` says, with the
/// children `modifiers`, reads a channel of the host: it does where it is
/// dynamic or a child carries the flag.
pub fn shared_has_base_provider(is_dynamic: bool, modifiers: &[Modifier]) -> (r: bool)
    ensures
        r == (is_dynamic || exists|i: int|
            0 <= i < modifiers@.len() && (#[trigger] modifiers@[i]).flag()),
{
    if is_dynamic {
        return true;
    }
    let mut i: usize = 0;
    while i < modifiers.len()
        invariant
            i <= modifiers@.len(),
            forall|j: int| 0 <= j < i ==> !(#[trigger] modifiers@[j]).flag(),
        decreases modifiers@.len() - i,
    {
        if modifiers[i].has_base_provider() {
            return true;
        }
        i = i + 1;
    }
    false
}

/// `op` applied by `n` to each running value and the value at its place.
pub fn combine_each<N: Numerics>(n: &N, op: Operation, acc: &Vec<Scalar>, v: &Vec<Scalar>) -> (r:
    Vec<Scalar>)
    requires
        acc@.len() == v@.len(),
    ensures
        is_combined_each(n, op, acc@, v@, r@),
{
    let mut r: Vec<Scalar> = Vec::new();
    let mut i: usize = 0;
    while i < acc.len()
        invariant
            i <= acc@.len(),
            acc@.len() == v@.len(),
            r@.len() == i,
            forall|j: int| 0 <= j < i ==> is_combined(n, op, acc@[j], v@[j], #[trigger] r@[j]),
        decreases acc@.len() - i,
    {
        r.push(combine(n, op, acc[i], v[i]));
        i = i + 1;
    }
    r
}

impl Modifier {
    /// The operation by which the modifier combines with what stands
    /// before it.
    pub fn get_operation(&self) -> (r: Operation)
        ensures
            r == self.operation(),
    {
        match self {
            Modifier::Float(modifier) => modifier.operation,
            Modifier::Vector3(modifier) => modifier.operation,
            Modifier::Vector4(modifier) => modifier.operation,
            Modifier::Quaternion(modifier) => modifier.operation,
        }
    }

    /// The flag of the modifier: whether it, or a modifier below it,
    /// starts from providers.
    pub fn has_base_provider(&self) -> (r: bool)
        ensures
            r == self.flag(),
    {
        match self {
            Modifier::Float(modifier) => modifier.has_base_provider,
            Modifier::Vector3(modifier) => modifier.has_base_provider,
            Modifier::Vector4(modifier) => modifier.has_base_provider,
            Modifier::Quaternion(modifier) => modifier.has_base_provider,
        }
    }

    /// The child modifiers.
    pub fn get_modifiers(&self) -> (r: &Vec<Modifier>)
        ensures
            r@ == self.children(),
    {
        match self {
            Modifier::Float(modifier) => &modifier.modifiers,
            Modifier::Vector3(modifier) => &modifier.modifiers,
            Modifier::Vector4(modifier) => &modifier.modifiers,
            Modifier::Quaternion(modifier) => &modifier.modifiers,
        }
    }

    /// The numbers that the modifier starts from.
    pub fn start<N: Numerics>(&self, context: &BaseProviderContext, n: &N) -> (r: Vec<Scalar>)
        requires
            self.wf(),
            context.wf(),
        ensures
            self.starts_from(n, context, r@),
            r@.len() == self.kind().arity(),
    {
        match self {
            Modifier::Float(m) => match &m.values {
                ModifierValues::Static(s) => {
                    let mut r: Vec<Scalar> = Vec::new();
                    r.push(*s);
                    assert(r@ =~= seq![*s]);
                    r
                },
                ModifierValues::Dynamic(p) => first_numbers(p, 1, context, n),
            },
            Modifier::Vector3(m) => match &m.values {
                ModifierValues::Static(s) => vstd::slice::slice_to_vec(s.as_slice()),
                ModifierValues::Dynamic(p) => first_numbers(p, 3, context, n),
            },
            Modifier::Vector4(m) => match &m.values {
                ModifierValues::Static(s) => vstd::slice::slice_to_vec(s.as_slice()),
                ModifierValues::Dynamic(p) => first_numbers(p, 4, context, n),
            },
            Modifier::Quaternion(m) => match &m.values {
                QuaternionValues::Static(angles, _) => vstd::slice::slice_to_vec(
                    angles.as_slice(),
                ),
                QuaternionValues::Dynamic(p) => first_numbers(p, 3, context, n),
            },
        }
    }

    /// The numbers of the modifier: its start folded with its children.
    /// A rotation gives its three angles.
    pub fn numbers<N: Numerics>(&self, context: &BaseProviderContext, n: &N) -> (r: Vec<Scalar>)
        requires
            self.wf(),
            context.wf(),
        ensures
            self.yields(n, context, r@),
            r@.len() == self.kind().arity(),
        decreases *self,
    {
        let start = self.start(context, n);
        let children = self.get_modifiers();
        let mut acc = start;
        let ghost first = acc@;
        let mut i: usize = 0;
        while i < children.len()
            invariant
                i <= children@.len(),
                children@ == self.children(),
                self.wf(),
                context.wf(),
                acc@.len() == self.kind().arity(),
                folds(*self, n, context, first, i as nat, acc@),
            decreases children@.len() - i,
        {
            let ghost before = acc@;
            let own = children[i].numbers(context, n);
            let next = combine_each(n, children[i].get_operation(), &acc, &own);
            acc = next;
            i = i + 1;
            assert(is_combined_each(
                n,
                self.children()[i - 1].operation(),
                before,
                own@,
                acc@,
            ));
        }
        assert(self.starts_from(n, context, first));
        acc
    }

    /// The value of a modifier of numbers.
    pub fn get_float<N: Numerics>(&self, context: &BaseProviderContext, n: &N) -> (r: Scalar)
        requires
            *self is Float,
            self.wf(),
            context.wf(),
        ensures
            self.yields(n, context, seq![r]),
    {
        let numbers = self.numbers(context, n);
        assert(numbers@ =~= seq![numbers@[0]]);
        numbers[0]
    }

    /// The value of a modifier of 3-vectors.
    pub fn get_vector3<N: Numerics>(&self, context: &BaseProviderContext, n: &N) -> (r: [
        Scalar;
        3
    ])
        requires
            *self is Vector3,
            self.wf(),
            context.wf(),
        ensures
            self.yields(n, context, r@),
    {
        let numbers = self.numbers(context, n);
        let r = [numbers[0], numbers[1], numbers[2]];
        assert(numbers@ =~= r@);
        r
    }

    /// The value of a modifier of 4-vectors.
    pub fn get_vector4<N: Numerics>(&self, context: &BaseProviderContext, n: &N) -> (r: [
        Scalar;
        4
    ])
        requires
            *self is Vector4,
            self.wf(),
            context.wf(),
        ensures
            self.yields(n, context, r@),
    {
        let numbers = self.numbers(context, n);
        let r = [numbers[0], numbers[1], numbers[2], numbers[3]];
        assert(numbers@ =~= r@);
        r
    }

    /// `out` is a rotation that evaluation of a modifier of rotations
    /// gives: the fixed rotation where the modifier has one and no
    /// children, and else the rotation of the angles that it yields.
    pub open spec fn yields_rotation<N: Numerics>(
        self,
        n: &N,
        context: &BaseProviderContext,
        out: [Scalar; 4],
    ) -> bool {
        match self {
            Modifier::Quaternion(m) => match m.values {
                QuaternionValues::Static(_, fixed) if m.modifiers@.len() == 0 => out == fixed,
                _ => exists|angles: [Scalar; 3]|
                    #![trigger is_quat_of(n, angles, out)]
                    self.yields(n, context, angles@) && is_quat_of(n, angles, out),
            },
            _ => false,
        }
    }

    /// The three angles of a modifier of rotations.
    pub fn get_vector_point<N: Numerics>(&self, context: &BaseProviderContext, n: &N) -> (r: [
        Scalar;
        3
    ])
        requires
            *self is Quaternion,
            self.wf(),
            context.wf(),
        ensures
            self.yields(n, context, r@),
    {
        let numbers = self.numbers(context, n);
        let r = [numbers[0], numbers[1], numbers[2]];
        assert(numbers@ =~= r@);
        r
    }

    /// The value of a modifier of rotations.
    pub fn get_quaternion<N: Numerics>(&self, context: &BaseProviderContext, n: &N) -> (r: [
        Scalar;
        4
    ])
        requires
            *self is Quaternion,
            self.wf(),
            context.wf(),
        ensures
            self.yields_rotation(n, context, r),
    {
        match self {
            Modifier::Quaternion(m) => {
                if m.modifiers.len() == 0 {
                    match &m.values {
                        QuaternionValues::Static(_, fixed) => {
                            return *fixed;
                        },
                        _ => {},
                    }
                }
                let angles = self.get_vector_point(context, n);
                let r = n.euler_to_quat(angles);
                assert(is_quat_of(n, angles, r));
                r
            },
            _ => [0, 0, 0, 0],
        }
    }
}

/// A modifier without children yields what it starts from.
pub proof fn lemma_leaf_yields<N: Numerics>(
    m: Modifier,
    n: &N,
    context: &BaseProviderContext,
    out: Seq<Scalar>,
)
    requires
        m.children().len() == 0,
    ensures
        m.yields(n, context, out) <==> m.starts_from(n, context, out),
{
    if m.yields(n, context, out) {
        let start = choose|start: Seq<Scalar>|
            #![trigger m.starts_from(n, context, start)]
            m.starts_from(n, context, start) && folds(m, n, context, start, 0, out);
        assert(out == start);
    }
    if m.starts_from(n, context, out) {
        assert(folds(m, n, context, out, 0, out));
    }
}

/// The children of a modifier are applied from the first to the last: a
/// modifier that starts from the fixed number `base` and has two children
/// without children of their own, with the fixed numbers `first` and
/// `second`, yields the number that the operation of the second child
/// gives for the number that the operation of the first child gives for
/// `base` and `first`, and `second`. With addition and then
/// multiplication that is `(base + first) * second`.
pub proof fn lemma_fold_order<N: Numerics>(
    m: Modifier,
    n: &N,
    context: &BaseProviderContext,
    base: Scalar,
    first: Scalar,
    second: Scalar,
    out: Scalar,
)
    requires
        m.fixed() == Some(seq![base]),
        m.children().len() == 2,
        m.children()[0].children().len() == 0,
        m.children()[1].children().len() == 0,
        m.children()[0].fixed() == Some(seq![first]),
        m.children()[1].fixed() == Some(seq![second]),
    ensures
        m.yields(n, context, seq![out]) <==> exists|between: Scalar|
            #![trigger is_combined(n, m.children()[0].operation(), base, first, between)]
            is_combined(n, m.children()[0].operation(), base, first, between) && is_combined(
                n,
                m.children()[1].operation(),
                between,
                second,
                out,
            ),
{
    let kids = m.children();
    let op0 = kids[0].operation();
    let op1 = kids[1].operation();
    lemma_leaf_yields(kids[0], n, context, seq![first]);
    lemma_leaf_yields(kids[1], n, context, seq![second]);
    if m.yields(n, context, seq![out]) {
        let start = choose|start: Seq<Scalar>|
            #![trigger m.starts_from(n, context, start)]
            m.starts_from(n, context, start) && folds(m, n, context, start, 2, seq![out]);
        assert(start == seq![base]);
        let (mid, own1) = choose|mid: Seq<Scalar>, own1: Seq<Scalar>|
            #![trigger is_combined_each(n, op1, mid, own1, seq![out])]
            folds(m, n, context, start, 1, mid) && kids[1].yields(n, context, own1)
                && is_combined_each(n, op1, mid, own1, seq![out]);
        let (zero, own0) = choose|zero: Seq<Scalar>, own0: Seq<Scalar>|
            #![trigger is_combined_each(n, op0, zero, own0, mid)]
            folds(m, n, context, start, 0, zero) && kids[0].yields(n, context, own0)
                && is_combined_each(n, op0, zero, own0, mid);
        assert(zero == start);
        lemma_leaf_yields(kids[0], n, context, own0);
        lemma_leaf_yields(kids[1], n, context, own1);
        assert(own0 == seq![first]);
        assert(own1 == seq![second]);
        assert(mid.len() == 1);
        assert(is_combined(n, op0, zero[0], own0[0], mid[0]));
        assert(is_combined(n, op1, mid[0], own1[0], seq![out][0]));
        assert(is_combined(n, op0, base, first, mid[0]));
    }
    if exists|between: Scalar|
        #![trigger is_combined(n, op0, base, first, between)]
        is_combined(n, op0, base, first, between) && is_combined(n, op1, between, second, out) {
        let between = choose|between: Scalar|
            #![trigger is_combined(n, op0, base, first, between)]
            is_combined(n, op0, base, first, between) && is_combined(n, op1, between, second, out);
        let start = seq![base];
        let mid = seq![between];
        assert(m.starts_from(n, context, start));
        assert(folds(m, n, context, start, 0, start));
        assert(is_combined_each(n, op0, start, seq![first], mid));
        assert(folds(m, n, context, start, 1, mid));
        assert(is_combined_each(n, op1, mid, seq![second], seq![out]));
        assert(folds(m, n, context, start, 2, seq![out]));
    }
}

} // verus!
