//! The easing curves that a point or an event may name.
use crate::text::same;
use vstd::prelude::*;

verus! {

/// An easing curve. The curve itself is arithmetic and belongs to the
/// caller's `Numerics`; the engine only carries the choice.
#[derive(Copy, Clone, Debug, PartialEq, Eq, Structural)]
#[allow(clippy::enum_variant_names)]
pub enum Functions {
    EaseLinear,
    EaseStep,
    EaseInQuad,
    EaseOutQuad,
    EaseInOutQuad,
    EaseInCubic,
    EaseOutCubic,
    EaseInOutCubic,
    EaseInQuart,
    EaseOutQuart,
    EaseInOutQuart,
    EaseInQuint,
    EaseOutQuint,
    EaseInOutQuint,
    EaseInSine,
    EaseOutSine,
    EaseInOutSine,
    EaseInCirc,
    EaseOutCirc,
    EaseInOutCirc,
    EaseInExpo,
    EaseOutExpo,
    EaseInOutExpo,
    EaseInElastic,
    EaseOutElastic,
    EaseInOutElastic,
    EaseInBack,
    EaseOutBack,
    EaseInOutBack,
    EaseInBounce,
    EaseOutBounce,
    EaseInOutBounce,
}

/// How many easing curves there are.
pub const EASING_COUNT: u32 = 32;

impl Functions {
    /// The name under which content refers to this curve.
    pub open spec fn name(self) -> Seq<char> {
        match self {
            Functions::EaseLinear => "easeLinear"@,
            Functions::EaseStep => "easeStep"@,
            Functions::EaseInQuad => "easeInQuad"@,
            Functions::EaseOutQuad => "easeOutQuad"@,
            Functions::EaseInOutQuad => "easeInOutQuad"@,
            Functions::EaseInCubic => "easeInCubic"@,
            Functions::EaseOutCubic => "easeOutCubic"@,
            Functions::EaseInOutCubic => "easeInOutCubic"@,
            Functions::EaseInQuart => "easeInQuart"@,
            Functions::EaseOutQuart => "easeOutQuart"@,
            Functions::EaseInOutQuart => "easeInOutQuart"@,
            Functions::EaseInQuint => "easeInQuint"@,
            Functions::EaseOutQuint => "easeOutQuint"@,
            Functions::EaseInOutQuint => "easeInOutQuint"@,
            Functions::EaseInSine => "easeInSine"@,
            Functions::EaseOutSine => "easeOutSine"@,
            Functions::EaseInOutSine => "easeInOutSine"@,
            Functions::EaseInCirc => "easeInCirc"@,
            Functions::EaseOutCirc => "easeOutCirc"@,
            Functions::EaseInOutCirc => "easeInOutCirc"@,
            Functions::EaseInExpo => "easeInExpo"@,
            Functions::EaseOutExpo => "easeOutExpo"@,
            Functions::EaseInOutExpo => "easeInOutExpo"@,
            Functions::EaseInElastic => "easeInElastic"@,
            Functions::EaseOutElastic => "easeOutElastic"@,
            Functions::EaseInOutElastic => "easeInOutElastic"@,
            Functions::EaseInBack => "easeInBack"@,
            Functions::EaseOutBack => "easeOutBack"@,
            Functions::EaseInOutBack => "easeInOutBack"@,
            Functions::EaseInBounce => "easeInBounce"@,
            Functions::EaseOutBounce => "easeOutBounce"@,
            Functions::EaseInOutBounce => "easeInOutBounce"@,
        }
    }

    /// The position of this curve in the list of curves.
    pub open spec fn index(self) -> int {
        match self {
            Functions::EaseLinear => 0,
            Functions::EaseStep => 1,
            Functions::EaseInQuad => 2,
            Functions::EaseOutQuad => 3,
            Functions::EaseInOutQuad => 4,
            Functions::EaseInCubic => 5,
            Functions::EaseOutCubic => 6,
            Functions::EaseInOutCubic => 7,
            Functions::EaseInQuart => 8,
            Functions::EaseOutQuart => 9,
            Functions::EaseInOutQuart => 10,
            Functions::EaseInQuint => 11,
            Functions::EaseOutQuint => 12,
            Functions::EaseInOutQuint => 13,
            Functions::EaseInSine => 14,
            Functions::EaseOutSine => 15,
            Functions::EaseInOutSine => 16,
            Functions::EaseInCirc => 17,
            Functions::EaseOutCirc => 18,
            Functions::EaseInOutCirc => 19,
            Functions::EaseInExpo => 20,
            Functions::EaseOutExpo => 21,
            Functions::EaseInOutExpo => 22,
            Functions::EaseInElastic => 23,
            Functions::EaseOutElastic => 24,
            Functions::EaseInOutElastic => 25,
            Functions::EaseInBack => 26,
            Functions::EaseOutBack => 27,
            Functions::EaseInOutBack => 28,
            Functions::EaseInBounce => 29,
            Functions::EaseOutBounce => 30,
            Functions::EaseInOutBounce => 31,
        }
    }

    /// The curve that `s` names: `Ok` exactly when `s` is the name of a
    /// curve, and then that curve; `Err` for every other text.
    pub fn from_str(s: &str) -> (r: Result<Functions, ()>)
        ensures
            match r {
                Ok(f) => s@ == f.name(),
                Err(_) => forall|f: Functions| s@ != #[trigger] f.name(),
            },
    {
        if same(s, "easeLinear") {
            Ok(Functions::EaseLinear)
        } else if same(s, "easeStep") {
            Ok(Functions::EaseStep)
        } else if same(s, "easeInQuad") {
            Ok(Functions::EaseInQuad)
        } else if same(s, "easeOutQuad") {
            Ok(Functions::EaseOutQuad)
        } else if same(s, "easeInOutQuad") {
            Ok(Functions::EaseInOutQuad)
        } else if same(s, "easeInCubic") {
            Ok(Functions::EaseInCubic)
        } else if same(s, "easeOutCubic") {
            Ok(Functions::EaseOutCubic)
        } else if same(s, "easeInOutCubic") {
            Ok(Functions::EaseInOutCubic)
        } else if same(s, "easeInQuart") {
            Ok(Functions::EaseInQuart)
        } else if same(s, "easeOutQuart") {
            Ok(Functions::EaseOutQuart)
        } else if same(s, "easeInOutQuart") {
            Ok(Functions::EaseInOutQuart)
        } else if same(s, "easeInQuint") {
            Ok(Functions::EaseInQuint)
        } else if same(s, "easeOutQuint") {
            Ok(Functions::EaseOutQuint)
        } else if same(s, "easeInOutQuint") {
            Ok(Functions::EaseInOutQuint)
        } else if same(s, "easeInSine") {
            Ok(Functions::EaseInSine)
        } else if same(s, "easeOutSine") {
            Ok(Functions::EaseOutSine)
        } else if same(s, "easeInOutSine") {
            Ok(Functions::EaseInOutSine)
        } else if same(s, "easeInCirc") {
            Ok(Functions::EaseInCirc)
        } else if same(s, "easeOutCirc") {
            Ok(Functions::EaseOutCirc)
        } else if same(s, "easeInOutCirc") {
            Ok(Functions::EaseInOutCirc)
        } else if same(s, "easeInExpo") {
            Ok(Functions::EaseInExpo)
        } else if same(s, "easeOutExpo") {
            Ok(Functions::EaseOutExpo)
        } else if same(s, "easeInOutExpo") {
            Ok(Functions::EaseInOutExpo)
        } else if same(s, "easeInElastic") {
            Ok(Functions::EaseInElastic)
        } else if same(s, "easeOutElastic") {
            Ok(Functions::EaseOutElastic)
        } else if same(s, "easeInOutElastic") {
            Ok(Functions::EaseInOutElastic)
        } else if same(s, "easeInBack") {
            Ok(Functions::EaseInBack)
        } else if same(s, "easeOutBack") {
            Ok(Functions::EaseOutBack)
        } else if same(s, "easeInOutBack") {
            Ok(Functions::EaseInOutBack)
        } else if same(s, "easeInBounce") {
            Ok(Functions::EaseInBounce)
        } else if same(s, "easeOutBounce") {
            Ok(Functions::EaseOutBounce)
        } else if same(s, "easeInOutBounce") {
            Ok(Functions::EaseInOutBounce)
        } else {
            Err(())
        }
    }

    /// The curve that `s` names, and the linear curve where `s` names none.
    pub fn from_str_or_linear(s: &str) -> (f: Functions)
        ensures
            s@ == f.name() || (f == Functions::EaseLinear && forall|g: Functions|
                s@ != #[trigger] g.name()),
    {
        match Functions::from_str(s) {
            Ok(f) => f,
            Err(_) => Functions::EaseLinear,
        }
    }

    /// The name of this curve, as text.
    pub fn to_name(self) -> (s: String)
        ensures
            s@ == self.name(),
    {
        match self {
            Functions::EaseLinear => "easeLinear".to_owned(),
            Functions::EaseStep => "easeStep".to_owned(),
            Functions::EaseInQuad => "easeInQuad".to_owned(),
            Functions::EaseOutQuad => "easeOutQuad".to_owned(),
            Functions::EaseInOutQuad => "easeInOutQuad".to_owned(),
            Functions::EaseInCubic => "easeInCubic".to_owned(),
            Functions::EaseOutCubic => "easeOutCubic".to_owned(),
            Functions::EaseInOutCubic => "easeInOutCubic".to_owned(),
            Functions::EaseInQuart => "easeInQuart".to_owned(),
            Functions::EaseOutQuart => "easeOutQuart".to_owned(),
            Functions::EaseInOutQuart => "easeInOutQuart".to_owned(),
            Functions::EaseInQuint => "easeInQuint".to_owned(),
            Functions::EaseOutQuint => "easeOutQuint".to_owned(),
            Functions::EaseInOutQuint => "easeInOutQuint".to_owned(),
            Functions::EaseInSine => "easeInSine".to_owned(),
            Functions::EaseOutSine => "easeOutSine".to_owned(),
            Functions::EaseInOutSine => "easeInOutSine".to_owned(),
            Functions::EaseInCirc => "easeInCirc".to_owned(),
            Functions::EaseOutCirc => "easeOutCirc".to_owned(),
            Functions::EaseInOutCirc => "easeInOutCirc".to_owned(),
            Functions::EaseInExpo => "easeInExpo".to_owned(),
            Functions::EaseOutExpo => "easeOutExpo".to_owned(),
            Functions::EaseInOutExpo => "easeInOutExpo".to_owned(),
            Functions::EaseInElastic => "easeInElastic".to_owned(),
            Functions::EaseOutElastic => "easeOutElastic".to_owned(),
            Functions::EaseInOutElastic => "easeInOutElastic".to_owned(),
            Functions::EaseInBack => "easeInBack".to_owned(),
            Functions::EaseOutBack => "easeOutBack".to_owned(),
            Functions::EaseInOutBack => "easeInOutBack".to_owned(),
            Functions::EaseInBounce => "easeInBounce".to_owned(),
            Functions::EaseOutBounce => "easeOutBounce".to_owned(),
            Functions::EaseInOutBounce => "easeInOutBounce".to_owned(),
        }
    }

    /// The curve at position `index` of the list of curves, and the linear
    /// curve for a position outside the list.
    pub fn from_index(index: i32) -> (f: Functions)
        ensures
            0 <= index < EASING_COUNT ==> f.index() == index,
            !(0 <= index < EASING_COUNT) ==> f == Functions::EaseLinear,
    {
        match index {
            0 => Functions::EaseLinear,
            1 => Functions::EaseStep,
            2 => Functions::EaseInQuad,
            3 => Functions::EaseOutQuad,
            4 => Functions::EaseInOutQuad,
            5 => Functions::EaseInCubic,
            6 => Functions::EaseOutCubic,
            7 => Functions::EaseInOutCubic,
            8 => Functions::EaseInQuart,
            9 => Functions::EaseOutQuart,
            10 => Functions::EaseInOutQuart,
            11 => Functions::EaseInQuint,
            12 => Functions::EaseOutQuint,
            13 => Functions::EaseInOutQuint,
            14 => Functions::EaseInSine,
            15 => Functions::EaseOutSine,
            16 => Functions::EaseInOutSine,
            17 => Functions::EaseInCirc,
            18 => Functions::EaseOutCirc,
            19 => Functions::EaseInOutCirc,
            20 => Functions::EaseInExpo,
            21 => Functions::EaseOutExpo,
            22 => Functions::EaseInOutExpo,
            23 => Functions::EaseInElastic,
            24 => Functions::EaseOutElastic,
            25 => Functions::EaseInOutElastic,
            26 => Functions::EaseInBack,
            27 => Functions::EaseOutBack,
            28 => Functions::EaseInOutBack,
            29 => Functions::EaseInBounce,
            30 => Functions::EaseOutBounce,
            31 => Functions::EaseInOutBounce,
            _ => Functions::EaseLinear,
        }
    }
}

/// No two curves have one name: a text that is the name of a curve is the
/// name of that curve only.
pub proof fn lemma_names_differ(f: Functions, g: Functions)
    requires
        f != g,
    ensures
        f.name() != g.name(),
{
    lemma_texts_differ();
}

proof fn lemma_texts_differ()
    ensures
        "easeLinear"@ != "easeStep"@,
        "easeLinear"@ != "easeInQuad"@,
        "easeStep"@ != "easeInQuad"@,
        "easeLinear"@ != "easeOutQuad"@,
        "easeStep"@ != "easeOutQuad"@,
        "easeInQuad"@ != "easeOutQuad"@,
        "easeLinear"@ != "easeInOutQuad"@,
        "easeStep"@ != "easeInOutQuad"@,
        "easeInQuad"@ != "easeInOutQuad"@,
        "easeOutQuad"@ != "easeInOutQuad"@,
        "easeLinear"@ != "easeInCubic"@,
        "easeStep"@ != "easeInCubic"@,
        "easeInQuad"@ != "easeInCubic"@,
        "easeOutQuad"@ != "easeInCubic"@,
        "easeInOutQuad"@ != "easeInCubic"@,
        "easeLinear"@ != "easeOutCubic"@,
        "easeStep"@ != "easeOutCubic"@,
        "easeInQuad"@ != "easeOutCubic"@,
        "easeOutQuad"@ != "easeOutCubic"@,
        "easeInOutQuad"@ != "easeOutCubic"@,
        "easeInCubic"@ != "easeOutCubic"@,
        "easeLinear"@ != "easeInOutCubic"@,
        "easeStep"@ != "easeInOutCubic"@,
        "easeInQuad"@ != "easeInOutCubic"@,
        "easeOutQuad"@ != "easeInOutCubic"@,
        "easeInOutQuad"@ != "easeInOutCubic"@,
        "easeInCubic"@ != "easeInOutCubic"@,
        "easeOutCubic"@ != "easeInOutCubic"@,
        "easeLinear"@ != "easeInQuart"@,
        "easeStep"@ != "easeInQuart"@,
        "easeInQuad"@ != "easeInQuart"@,
        "easeOutQuad"@ != "easeInQuart"@,
        "easeInOutQuad"@ != "easeInQuart"@,
        "easeInCubic"@ != "easeInQuart"@,
        "easeOutCubic"@ != "easeInQuart"@,
        "easeInOutCubic"@ != "easeInQuart"@,
        "easeLinear"@ != "easeOutQuart"@,
        "easeStep"@ != "easeOutQuart"@,
        "easeInQuad"@ != "easeOutQuart"@,
        "easeOutQuad"@ != "easeOutQuart"@,
        "easeInOutQuad"@ != "easeOutQuart"@,
        "easeInCubic"@ != "easeOutQuart"@,
        "easeOutCubic"@ != "easeOutQuart"@,
        "easeInOutCubic"@ != "easeOutQuart"@,
        "easeInQuart"@ != "easeOutQuart"@,
        "easeLinear"@ != "easeInOutQuart"@,
        "easeStep"@ != "easeInOutQuart"@,
        "easeInQuad"@ != "easeInOutQuart"@,
        "easeOutQuad"@ != "easeInOutQuart"@,
        "easeInOutQuad"@ != "easeInOutQuart"@,
        "easeInCubic"@ != "easeInOutQuart"@,
        "easeOutCubic"@ != "easeInOutQuart"@,
        "easeInOutCubic"@ != "easeInOutQuart"@,
        "easeInQuart"@ != "easeInOutQuart"@,
        "easeOutQuart"@ != "easeInOutQuart"@,
        "easeLinear"@ != "easeInQuint"@,
        "easeStep"@ != "easeInQuint"@,
        "easeInQuad"@ != "easeInQuint"@,
        "easeOutQuad"@ != "easeInQuint"@,
        "easeInOutQuad"@ != "easeInQuint"@,
        "easeInCubic"@ != "easeInQuint"@,
        "easeOutCubic"@ != "easeInQuint"@,
        "easeInOutCubic"@ != "easeInQuint"@,
        "easeInQuart"@ != "easeInQuint"@,
        "easeOutQuart"@ != "easeInQuint"@,
        "easeInOutQuart"@ != "easeInQuint"@,
        "easeLinear"@ != "easeOutQuint"@,
        "easeStep"@ != "easeOutQuint"@,
        "easeInQuad"@ != "easeOutQuint"@,
        "easeOutQuad"@ != "easeOutQuint"@,
        "easeInOutQuad"@ != "easeOutQuint"@,
        "easeInCubic"@ != "easeOutQuint"@,
        "easeOutCubic"@ != "easeOutQuint"@,
        "easeInOutCubic"@ != "easeOutQuint"@,
        "easeInQuart"@ != "easeOutQuint"@,
        "easeOutQuart"@ != "easeOutQuint"@,
        "easeInOutQuart"@ != "easeOutQuint"@,
        "easeInQuint"@ != "easeOutQuint"@,
        "easeLinear"@ != "easeInOutQuint"@,
        "easeStep"@ != "easeInOutQuint"@,
        "easeInQuad"@ != "easeInOutQuint"@,
        "easeOutQuad"@ != "easeInOutQuint"@,
        "easeInOutQuad"@ != "easeInOutQuint"@,
        "easeInCubic"@ != "easeInOutQuint"@,
        "easeOutCubic"@ != "easeInOutQuint"@,
        "easeInOutCubic"@ != "easeInOutQuint"@,
        "easeInQuart"@ != "easeInOutQuint"@,
        "easeOutQuart"@ != "easeInOutQuint"@,
        "easeInOutQuart"@ != "easeInOutQuint"@,
        "easeInQuint"@ != "easeInOutQuint"@,
        "easeOutQuint"@ != "easeInOutQuint"@,
        "easeLinear"@ != "easeInSine"@,
        "easeStep"@ != "easeInSine"@,
        "easeInQuad"@ != "easeInSine"@,
        "easeOutQuad"@ != "easeInSine"@,
        "easeInOutQuad"@ != "easeInSine"@,
        "easeInCubic"@ != "easeInSine"@,
        "easeOutCubic"@ != "easeInSine"@,
        "easeInOutCubic"@ != "easeInSine"@,
        "easeInQuart"@ != "easeInSine"@,
        "easeOutQuart"@ != "easeInSine"@,
        "easeInOutQuart"@ != "easeInSine"@,
        "easeInQuint"@ != "easeInSine"@,
        "easeOutQuint"@ != "easeInSine"@,
        "easeInOutQuint"@ != "easeInSine"@,
        "easeLinear"@ != "easeOutSine"@,
        "easeStep"@ != "easeOutSine"@,
        "easeInQuad"@ != "easeOutSine"@,
        "easeOutQuad"@ != "easeOutSine"@,
        "easeInOutQuad"@ != "easeOutSine"@,
        "easeInCubic"@ != "easeOutSine"@,
        "easeOutCubic"@ != "easeOutSine"@,
        "easeInOutCubic"@ != "easeOutSine"@,
        "easeInQuart"@ != "easeOutSine"@,
        "easeOutQuart"@ != "easeOutSine"@,
        "easeInOutQuart"@ != "easeOutSine"@,
        "easeInQuint"@ != "easeOutSine"@,
        "easeOutQuint"@ != "easeOutSine"@,
        "easeInOutQuint"@ != "easeOutSine"@,
        "easeInSine"@ != "easeOutSine"@,
        "easeLinear"@ != "easeInOutSine"@,
        "easeStep"@ != "easeInOutSine"@,
        "easeInQuad"@ != "easeInOutSine"@,
        "easeOutQuad"@ != "easeInOutSine"@,
        "easeInOutQuad"@ != "easeInOutSine"@,
        "easeInCubic"@ != "easeInOutSine"@,
        "easeOutCubic"@ != "easeInOutSine"@,
        "easeInOutCubic"@ != "easeInOutSine"@,
        "easeInQuart"@ != "easeInOutSine"@,
        "easeOutQuart"@ != "easeInOutSine"@,
        "easeInOutQuart"@ != "easeInOutSine"@,
        "easeInQuint"@ != "easeInOutSine"@,
        "easeOutQuint"@ != "easeInOutSine"@,
        "easeInOutQuint"@ != "easeInOutSine"@,
        "easeInSine"@ != "easeInOutSine"@,
        "easeOutSine"@ != "easeInOutSine"@,
        "easeLinear"@ != "easeInCirc"@,
        "easeStep"@ != "easeInCirc"@,
        "easeInQuad"@ != "easeInCirc"@,
        "easeOutQuad"@ != "easeInCirc"@,
        "easeInOutQuad"@ != "easeInCirc"@,
        "easeInCubic"@ != "easeInCirc"@,
        "easeOutCubic"@ != "easeInCirc"@,
        "easeInOutCubic"@ != "easeInCirc"@,
        "easeInQuart"@ != "easeInCirc"@,
        "easeOutQuart"@ != "easeInCirc"@,
        "easeInOutQuart"@ != "easeInCirc"@,
        "easeInQuint"@ != "easeInCirc"@,
        "easeOutQuint"@ != "easeInCirc"@,
        "easeInOutQuint"@ != "easeInCirc"@,
        "easeInSine"@ != "easeInCirc"@,
        "easeOutSine"@ != "easeInCirc"@,
        "easeInOutSine"@ != "easeInCirc"@,
        "easeLinear"@ != "easeOutCirc"@,
        "easeStep"@ != "easeOutCirc"@,
        "easeInQuad"@ != "easeOutCirc"@,
        "easeOutQuad"@ != "easeOutCirc"@,
        "easeInOutQuad"@ != "easeOutCirc"@,
        "easeInCubic"@ != "easeOutCirc"@,
        "easeOutCubic"@ != "easeOutCirc"@,
        "easeInOutCubic"@ != "easeOutCirc"@,
        "easeInQuart"@ != "easeOutCirc"@,
        "easeOutQuart"@ != "easeOutCirc"@,
        "easeInOutQuart"@ != "easeOutCirc"@,
        "easeInQuint"@ != "easeOutCirc"@,
        "easeOutQuint"@ != "easeOutCirc"@,
        "easeInOutQuint"@ != "easeOutCirc"@,
        "easeInSine"@ != "easeOutCirc"@,
        "easeOutSine"@ != "easeOutCirc"@,
        "easeInOutSine"@ != "easeOutCirc"@,
        "easeInCirc"@ != "easeOutCirc"@,
        "easeLinear"@ != "easeInOutCirc"@,
        "easeStep"@ != "easeInOutCirc"@,
        "easeInQuad"@ != "easeInOutCirc"@,
        "easeOutQuad"@ != "easeInOutCirc"@,
        "easeInOutQuad"@ != "easeInOutCirc"@,
        "easeInCubic"@ != "easeInOutCirc"@,
        "easeOutCubic"@ != "easeInOutCirc"@,
        "easeInOutCubic"@ != "easeInOutCirc"@,
        "easeInQuart"@ != "easeInOutCirc"@,
        "easeOutQuart"@ != "easeInOutCirc"@,
        "easeInOutQuart"@ != "easeInOutCirc"@,
        "easeInQuint"@ != "easeInOutCirc"@,
        "easeOutQuint"@ != "easeInOutCirc"@,
        "easeInOutQuint"@ != "easeInOutCirc"@,
        "easeInSine"@ != "easeInOutCirc"@,
        "easeOutSine"@ != "easeInOutCirc"@,
        "easeInOutSine"@ != "easeInOutCirc"@,
        "easeInCirc"@ != "easeInOutCirc"@,
        "easeOutCirc"@ != "easeInOutCirc"@,
        "easeLinear"@ != "easeInExpo"@,
        "easeStep"@ != "easeInExpo"@,
        "easeInQuad"@ != "easeInExpo"@,
        "easeOutQuad"@ != "easeInExpo"@,
        "easeInOutQuad"@ != "easeInExpo"@,
        "easeInCubic"@ != "easeInExpo"@,
        "easeOutCubic"@ != "easeInExpo"@,
        "easeInOutCubic"@ != "easeInExpo"@,
        "easeInQuart"@ != "easeInExpo"@,
        "easeOutQuart"@ != "easeInExpo"@,
        "easeInOutQuart"@ != "easeInExpo"@,
        "easeInQuint"@ != "easeInExpo"@,
        "easeOutQuint"@ != "easeInExpo"@,
        "easeInOutQuint"@ != "easeInExpo"@,
        "easeInSine"@ != "easeInExpo"@,
        "easeOutSine"@ != "easeInExpo"@,
        "easeInOutSine"@ != "easeInExpo"@,
        "easeInCirc"@ != "easeInExpo"@,
        "easeOutCirc"@ != "easeInExpo"@,
        "easeInOutCirc"@ != "easeInExpo"@,
        "easeLinear"@ != "easeOutExpo"@,
        "easeStep"@ != "easeOutExpo"@,
        "easeInQuad"@ != "easeOutExpo"@,
        "easeOutQuad"@ != "easeOutExpo"@,
        "easeInOutQuad"@ != "easeOutExpo"@,
        "easeInCubic"@ != "easeOutExpo"@,
        "easeOutCubic"@ != "easeOutExpo"@,
        "easeInOutCubic"@ != "easeOutExpo"@,
        "easeInQuart"@ != "easeOutExpo"@,
        "easeOutQuart"@ != "easeOutExpo"@,
        "easeInOutQuart"@ != "easeOutExpo"@,
        "easeInQuint"@ != "easeOutExpo"@,
        "easeOutQuint"@ != "easeOutExpo"@,
        "easeInOutQuint"@ != "easeOutExpo"@,
        "easeInSine"@ != "easeOutExpo"@,
        "easeOutSine"@ != "easeOutExpo"@,
        "easeInOutSine"@ != "easeOutExpo"@,
        "easeInCirc"@ != "easeOutExpo"@,
        "easeOutCirc"@ != "easeOutExpo"@,
        "easeInOutCirc"@ != "easeOutExpo"@,
        "easeInExpo"@ != "easeOutExpo"@,
        "easeLinear"@ != "easeInOutExpo"@,
        "easeStep"@ != "easeInOutExpo"@,
        "easeInQuad"@ != "easeInOutExpo"@,
        "easeOutQuad"@ != "easeInOutExpo"@,
        "easeInOutQuad"@ != "easeInOutExpo"@,
        "easeInCubic"@ != "easeInOutExpo"@,
        "easeOutCubic"@ != "easeInOutExpo"@,
        "easeInOutCubic"@ != "easeInOutExpo"@,
        "easeInQuart"@ != "easeInOutExpo"@,
        "easeOutQuart"@ != "easeInOutExpo"@,
        "easeInOutQuart"@ != "easeInOutExpo"@,
        "easeInQuint"@ != "easeInOutExpo"@,
        "easeOutQuint"@ != "easeInOutExpo"@,
        "easeInOutQuint"@ != "easeInOutExpo"@,
        "easeInSine"@ != "easeInOutExpo"@,
        "easeOutSine"@ != "easeInOutExpo"@,
        "easeInOutSine"@ != "easeInOutExpo"@,
        "easeInCirc"@ != "easeInOutExpo"@,
        "easeOutCirc"@ != "easeInOutExpo"@,
        "easeInOutCirc"@ != "easeInOutExpo"@,
        "easeInExpo"@ != "easeInOutExpo"@,
        "easeOutExpo"@ != "easeInOutExpo"@,
        "easeLinear"@ != "easeInElastic"@,
        "easeStep"@ != "easeInElastic"@,
        "easeInQuad"@ != "easeInElastic"@,
        "easeOutQuad"@ != "easeInElastic"@,
        "easeInOutQuad"@ != "easeInElastic"@,
        "easeInCubic"@ != "easeInElastic"@,
        "easeOutCubic"@ != "easeInElastic"@,
        "easeInOutCubic"@ != "easeInElastic"@,
        "easeInQuart"@ != "easeInElastic"@,
        "easeOutQuart"@ != "easeInElastic"@,
        "easeInOutQuart"@ != "easeInElastic"@,
        "easeInQuint"@ != "easeInElastic"@,
        "easeOutQuint"@ != "easeInElastic"@,
        "easeInOutQuint"@ != "easeInElastic"@,
        "easeInSine"@ != "easeInElastic"@,
        "easeOutSine"@ != "easeInElastic"@,
        "easeInOutSine"@ != "easeInElastic"@,
        "easeInCirc"@ != "easeInElastic"@,
        "easeOutCirc"@ != "easeInElastic"@,
        "easeInOutCirc"@ != "easeInElastic"@,
        "easeInExpo"@ != "easeInElastic"@,
        "easeOutExpo"@ != "easeInElastic"@,
        "easeInOutExpo"@ != "easeInElastic"@,
        "easeLinear"@ != "easeOutElastic"@,
        "easeStep"@ != "easeOutElastic"@,
        "easeInQuad"@ != "easeOutElastic"@,
        "easeOutQuad"@ != "easeOutElastic"@,
        "easeInOutQuad"@ != "easeOutElastic"@,
        "easeInCubic"@ != "easeOutElastic"@,
        "easeOutCubic"@ != "easeOutElastic"@,
        "easeInOutCubic"@ != "easeOutElastic"@,
        "easeInQuart"@ != "easeOutElastic"@,
        "easeOutQuart"@ != "easeOutElastic"@,
        "easeInOutQuart"@ != "easeOutElastic"@,
        "easeInQuint"@ != "easeOutElastic"@,
        "easeOutQuint"@ != "easeOutElastic"@,
        "easeInOutQuint"@ != "easeOutElastic"@,
        "easeInSine"@ != "easeOutElastic"@,
        "easeOutSine"@ != "easeOutElastic"@,
        "easeInOutSine"@ != "easeOutElastic"@,
        "easeInCirc"@ != "easeOutElastic"@,
        "easeOutCirc"@ != "easeOutElastic"@,
        "easeInOutCirc"@ != "easeOutElastic"@,
        "easeInExpo"@ != "easeOutElastic"@,
        "easeOutExpo"@ != "easeOutElastic"@,
        "easeInOutExpo"@ != "easeOutElastic"@,
        "easeInElastic"@ != "easeOutElastic"@,
        "easeLinear"@ != "easeInOutElastic"@,
        "easeStep"@ != "easeInOutElastic"@,
        "easeInQuad"@ != "easeInOutElastic"@,
        "easeOutQuad"@ != "easeInOutElastic"@,
        "easeInOutQuad"@ != "easeInOutElastic"@,
        "easeInCubic"@ != "easeInOutElastic"@,
        "easeOutCubic"@ != "easeInOutElastic"@,
        "easeInOutCubic"@ != "easeInOutElastic"@,
        "easeInQuart"@ != "easeInOutElastic"@,
        "easeOutQuart"@ != "easeInOutElastic"@,
        "easeInOutQuart"@ != "easeInOutElastic"@,
        "easeInQuint"@ != "easeInOutElastic"@,
        "easeOutQuint"@ != "easeInOutElastic"@,
        "easeInOutQuint"@ != "easeInOutElastic"@,
        "easeInSine"@ != "easeInOutElastic"@,
        "easeOutSine"@ != "easeInOutElastic"@,
        "easeInOutSine"@ != "easeInOutElastic"@,
        "easeInCirc"@ != "easeInOutElastic"@,
        "easeOutCirc"@ != "easeInOutElastic"@,
        "easeInOutCirc"@ != "easeInOutElastic"@,
        "easeInExpo"@ != "easeInOutElastic"@,
        "easeOutExpo"@ != "easeInOutElastic"@,
        "easeInOutExpo"@ != "easeInOutElastic"@,
        "easeInElastic"@ != "easeInOutElastic"@,
        "easeOutElastic"@ != "easeInOutElastic"@,
        "easeLinear"@ != "easeInBack"@,
        "easeStep"@ != "easeInBack"@,
        "easeInQuad"@ != "easeInBack"@,
        "easeOutQuad"@ != "easeInBack"@,
        "easeInOutQuad"@ != "easeInBack"@,
        "easeInCubic"@ != "easeInBack"@,
        "easeOutCubic"@ != "easeInBack"@,
        "easeInOutCubic"@ != "easeInBack"@,
        "easeInQuart"@ != "easeInBack"@,
        "easeOutQuart"@ != "easeInBack"@,
        "easeInOutQuart"@ != "easeInBack"@,
        "easeInQuint"@ != "easeInBack"@,
        "easeOutQuint"@ != "easeInBack"@,
        "easeInOutQuint"@ != "easeInBack"@,
        "easeInSine"@ != "easeInBack"@,
        "easeOutSine"@ != "easeInBack"@,
        "easeInOutSine"@ != "easeInBack"@,
        "easeInCirc"@ != "easeInBack"@,
        "easeOutCirc"@ != "easeInBack"@,
        "easeInOutCirc"@ != "easeInBack"@,
        "easeInExpo"@ != "easeInBack"@,
        "easeOutExpo"@ != "easeInBack"@,
        "easeInOutExpo"@ != "easeInBack"@,
        "easeInElastic"@ != "easeInBack"@,
        "easeOutElastic"@ != "easeInBack"@,
        "easeInOutElastic"@ != "easeInBack"@,
        "easeLinear"@ != "easeOutBack"@,
        "easeStep"@ != "easeOutBack"@,
        "easeInQuad"@ != "easeOutBack"@,
        "easeOutQuad"@ != "easeOutBack"@,
        "easeInOutQuad"@ != "easeOutBack"@,
        "easeInCubic"@ != "easeOutBack"@,
        "easeOutCubic"@ != "easeOutBack"@,
        "easeInOutCubic"@ != "easeOutBack"@,
        "easeInQuart"@ != "easeOutBack"@,
        "easeOutQuart"@ != "easeOutBack"@,
        "easeInOutQuart"@ != "easeOutBack"@,
        "easeInQuint"@ != "easeOutBack"@,
        "easeOutQuint"@ != "easeOutBack"@,
        "easeInOutQuint"@ != "easeOutBack"@,
        "easeInSine"@ != "easeOutBack"@,
        "easeOutSine"@ != "easeOutBack"@,
        "easeInOutSine"@ != "easeOutBack"@,
        "easeInCirc"@ != "easeOutBack"@,
        "easeOutCirc"@ != "easeOutBack"@,
        "easeInOutCirc"@ != "easeOutBack"@,
        "easeInExpo"@ != "easeOutBack"@,
        "easeOutExpo"@ != "easeOutBack"@,
        "easeInOutExpo"@ != "easeOutBack"@,
        "easeInElastic"@ != "easeOutBack"@,
        "easeOutElastic"@ != "easeOutBack"@,
        "easeInOutElastic"@ != "easeOutBack"@,
        "easeInBack"@ != "easeOutBack"@,
        "easeLinear"@ != "easeInOutBack"@,
        "easeStep"@ != "easeInOutBack"@,
        "easeInQuad"@ != "easeInOutBack"@,
        "easeOutQuad"@ != "easeInOutBack"@,
        "easeInOutQuad"@ != "easeInOutBack"@,
        "easeInCubic"@ != "easeInOutBack"@,
        "easeOutCubic"@ != "easeInOutBack"@,
        "easeInOutCubic"@ != "easeInOutBack"@,
        "easeInQuart"@ != "easeInOutBack"@,
        "easeOutQuart"@ != "easeInOutBack"@,
        "easeInOutQuart"@ != "easeInOutBack"@,
        "easeInQuint"@ != "easeInOutBack"@,
        "easeOutQuint"@ != "easeInOutBack"@,
        "easeInOutQuint"@ != "easeInOutBack"@,
        "easeInSine"@ != "easeInOutBack"@,
        "easeOutSine"@ != "easeInOutBack"@,
        "easeInOutSine"@ != "easeInOutBack"@,
        "easeInCirc"@ != "easeInOutBack"@,
        "easeOutCirc"@ != "easeInOutBack"@,
        "easeInOutCirc"@ != "easeInOutBack"@,
        "easeInExpo"@ != "easeInOutBack"@,
        "easeOutExpo"@ != "easeInOutBack"@,
        "easeInOutExpo"@ != "easeInOutBack"@,
        "easeInElastic"@ != "easeInOutBack"@,
        "easeOutElastic"@ != "easeInOutBack"@,
        "easeInOutElastic"@ != "easeInOutBack"@,
        "easeInBack"@ != "easeInOutBack"@,
        "easeOutBack"@ != "easeInOutBack"@,
        "easeLinear"@ != "easeInBounce"@,
        "easeStep"@ != "easeInBounce"@,
        "easeInQuad"@ != "easeInBounce"@,
        "easeOutQuad"@ != "easeInBounce"@,
        "easeInOutQuad"@ != "easeInBounce"@,
        "easeInCubic"@ != "easeInBounce"@,
        "easeOutCubic"@ != "easeInBounce"@,
        "easeInOutCubic"@ != "easeInBounce"@,
        "easeInQuart"@ != "easeInBounce"@,
        "easeOutQuart"@ != "easeInBounce"@,
        "easeInOutQuart"@ != "easeInBounce"@,
        "easeInQuint"@ != "easeInBounce"@,
        "easeOutQuint"@ != "easeInBounce"@,
        "easeInOutQuint"@ != "easeInBounce"@,
        "easeInSine"@ != "easeInBounce"@,
        "easeOutSine"@ != "easeInBounce"@,
        "easeInOutSine"@ != "easeInBounce"@,
        "easeInCirc"@ != "easeInBounce"@,
        "easeOutCirc"@ != "easeInBounce"@,
        "easeInOutCirc"@ != "easeInBounce"@,
        "easeInExpo"@ != "easeInBounce"@,
        "easeOutExpo"@ != "easeInBounce"@,
        "easeInOutExpo"@ != "easeInBounce"@,
        "easeInElastic"@ != "easeInBounce"@,
        "easeOutElastic"@ != "easeInBounce"@,
        "easeInOutElastic"@ != "easeInBounce"@,
        "easeInBack"@ != "easeInBounce"@,
        "easeOutBack"@ != "easeInBounce"@,
        "easeInOutBack"@ != "easeInBounce"@,
        "easeLinear"@ != "easeOutBounce"@,
        "easeStep"@ != "easeOutBounce"@,
        "easeInQuad"@ != "easeOutBounce"@,
        "easeOutQuad"@ != "easeOutBounce"@,
        "easeInOutQuad"@ != "easeOutBounce"@,
        "easeInCubic"@ != "easeOutBounce"@,
        "easeOutCubic"@ != "easeOutBounce"@,
        "easeInOutCubic"@ != "easeOutBounce"@,
        "easeInQuart"@ != "easeOutBounce"@,
        "easeOutQuart"@ != "easeOutBounce"@,
        "easeInOutQuart"@ != "easeOutBounce"@,
        "easeInQuint"@ != "easeOutBounce"@,
        "easeOutQuint"@ != "easeOutBounce"@,
        "easeInOutQuint"@ != "easeOutBounce"@,
        "easeInSine"@ != "easeOutBounce"@,
        "easeOutSine"@ != "easeOutBounce"@,
        "easeInOutSine"@ != "easeOutBounce"@,
        "easeInCirc"@ != "easeOutBounce"@,
        "easeOutCirc"@ != "easeOutBounce"@,
        "easeInOutCirc"@ != "easeOutBounce"@,
        "easeInExpo"@ != "easeOutBounce"@,
        "easeOutExpo"@ != "easeOutBounce"@,
        "easeInOutExpo"@ != "easeOutBounce"@,
        "easeInElastic"@ != "easeOutBounce"@,
        "easeOutElastic"@ != "easeOutBounce"@,
        "easeInOutElastic"@ != "easeOutBounce"@,
        "easeInBack"@ != "easeOutBounce"@,
        "easeOutBack"@ != "easeOutBounce"@,
        "easeInOutBack"@ != "easeOutBounce"@,
        "easeInBounce"@ != "easeOutBounce"@,
        "easeLinear"@ != "easeInOutBounce"@,
        "easeStep"@ != "easeInOutBounce"@,
        "easeInQuad"@ != "easeInOutBounce"@,
        "easeOutQuad"@ != "easeInOutBounce"@,
        "easeInOutQuad"@ != "easeInOutBounce"@,
        "easeInCubic"@ != "easeInOutBounce"@,
        "easeOutCubic"@ != "easeInOutBounce"@,
        "easeInOutCubic"@ != "easeInOutBounce"@,
        "easeInQuart"@ != "easeInOutBounce"@,
        "easeOutQuart"@ != "easeInOutBounce"@,
        "easeInOutQuart"@ != "easeInOutBounce"@,
        "easeInQuint"@ != "easeInOutBounce"@,
        "easeOutQuint"@ != "easeInOutBounce"@,
        "easeInOutQuint"@ != "easeInOutBounce"@,
        "easeInSine"@ != "easeInOutBounce"@,
        "easeOutSine"@ != "easeInOutBounce"@,
        "easeInOutSine"@ != "easeInOutBounce"@,
        "easeInCirc"@ != "easeInOutBounce"@,
        "easeOutCirc"@ != "easeInOutBounce"@,
        "easeInOutCirc"@ != "easeInOutBounce"@,
        "easeInExpo"@ != "easeInOutBounce"@,
        "easeOutExpo"@ != "easeInOutBounce"@,
        "easeInOutExpo"@ != "easeInOutBounce"@,
        "easeInElastic"@ != "easeInOutBounce"@,
        "easeOutElastic"@ != "easeInOutBounce"@,
        "easeInOutElastic"@ != "easeInOutBounce"@,
        "easeInBack"@ != "easeInOutBounce"@,
        "easeOutBack"@ != "easeInOutBounce"@,
        "easeInOutBack"@ != "easeInOutBounce"@,
        "easeInBounce"@ != "easeInOutBounce"@,
        "easeOutBounce"@ != "easeInOutBounce"@,
{
    reveal_strlit("easeLinear");
    reveal_strlit("easeStep");
    reveal_strlit("easeInQuad");
    reveal_strlit("easeOutQuad");
    reveal_strlit("easeInOutQuad");
    reveal_strlit("easeInCubic");
    reveal_strlit("easeOutCubic");
    reveal_strlit("easeInOutCubic");
    reveal_strlit("easeInQuart");
    reveal_strlit("easeOutQuart");
    reveal_strlit("easeInOutQuart");
    reveal_strlit("easeInQuint");
    reveal_strlit("easeOutQuint");
    reveal_strlit("easeInOutQuint");
    reveal_strlit("easeInSine");
    reveal_strlit("easeOutSine");
    reveal_strlit("easeInOutSine");
    reveal_strlit("easeInCirc");
    reveal_strlit("easeOutCirc");
    reveal_strlit("easeInOutCirc");
    reveal_strlit("easeInExpo");
    reveal_strlit("easeOutExpo");
    reveal_strlit("easeInOutExpo");
    reveal_strlit("easeInElastic");
    reveal_strlit("easeOutElastic");
    reveal_strlit("easeInOutElastic");
    reveal_strlit("easeInBack");
    reveal_strlit("easeOutBack");
    reveal_strlit("easeInOutBack");
    reveal_strlit("easeInBounce");
    reveal_strlit("easeOutBounce");
    reveal_strlit("easeInOutBounce");
    assert("easeLinear"@.len() != "easeStep"@.len());
    assert("easeLinear"@[4] != "easeInQuad"@[4]);
    assert("easeStep"@.len() != "easeInQuad"@.len());
    assert("easeLinear"@.len() != "easeOutQuad"@.len());
    assert("easeStep"@.len() != "easeOutQuad"@.len());
    assert("easeInQuad"@.len() != "easeOutQuad"@.len());
    assert("easeLinear"@.len() != "easeInOutQuad"@.len());
    assert("easeStep"@.len() != "easeInOutQuad"@.len());
    assert("easeInQuad"@.len() != "easeInOutQuad"@.len());
    assert("easeOutQuad"@.len() != "easeInOutQuad"@.len());
    assert("easeLinear"@.len() != "easeInCubic"@.len());
    assert("easeStep"@.len() != "easeInCubic"@.len());
    assert("easeInQuad"@.len() != "easeInCubic"@.len());
    assert("easeOutQuad"@[4] != "easeInCubic"@[4]);
    assert("easeInOutQuad"@.len() != "easeInCubic"@.len());
    assert("easeLinear"@.len() != "easeOutCubic"@.len());
    assert("easeStep"@.len() != "easeOutCubic"@.len());
    assert("easeInQuad"@.len() != "easeOutCubic"@.len());
    assert("easeOutQuad"@.len() != "easeOutCubic"@.len());
    assert("easeInOutQuad"@.len() != "easeOutCubic"@.len());
    assert("easeInCubic"@.len() != "easeOutCubic"@.len());
    assert("easeLinear"@.len() != "easeInOutCubic"@.len());
    assert("easeStep"@.len() != "easeInOutCubic"@.len());
    assert("easeInQuad"@.len() != "easeInOutCubic"@.len());
    assert("easeOutQuad"@.len() != "easeInOutCubic"@.len());
    assert("easeInOutQuad"@.len() != "easeInOutCubic"@.len());
    assert("easeInCubic"@.len() != "easeInOutCubic"@.len());
    assert("easeOutCubic"@.len() != "easeInOutCubic"@.len());
    assert("easeLinear"@.len() != "easeInQuart"@.len());
    assert("easeStep"@.len() != "easeInQuart"@.len());
    assert("easeInQuad"@.len() != "easeInQuart"@.len());
    assert("easeOutQuad"@[4] != "easeInQuart"@[4]);
    assert("easeInOutQuad"@.len() != "easeInQuart"@.len());
    assert("easeInCubic"@[6] != "easeInQuart"@[6]);
    assert("easeOutCubic"@.len() != "easeInQuart"@.len());
    assert("easeInOutCubic"@.len() != "easeInQuart"@.len());
    assert("easeLinear"@.len() != "easeOutQuart"@.len());
    assert("easeStep"@.len() != "easeOutQuart"@.len());
    assert("easeInQuad"@.len() != "easeOutQuart"@.len());
    assert("easeOutQuad"@.len() != "easeOutQuart"@.len());
    assert("easeInOutQuad"@.len() != "easeOutQuart"@.len());
    assert("easeInCubic"@.len() != "easeOutQuart"@.len());
    assert("easeOutCubic"@[7] != "easeOutQuart"@[7]);
    assert("easeInOutCubic"@.len() != "easeOutQuart"@.len());
    assert("easeInQuart"@.len() != "easeOutQuart"@.len());
    assert("easeLinear"@.len() != "easeInOutQuart"@.len());
    assert("easeStep"@.len() != "easeInOutQuart"@.len());
    assert("easeInQuad"@.len() != "easeInOutQuart"@.len());
    assert("easeOutQuad"@.len() != "easeInOutQuart"@.len());
    assert("easeInOutQuad"@.len() != "easeInOutQuart"@.len());
    assert("easeInCubic"@.len() != "easeInOutQuart"@.len());
    assert("easeOutCubic"@.len() != "easeInOutQuart"@.len());
    assert("easeInOutCubic"@[9] != "easeInOutQuart"@[9]);
    assert("easeInQuart"@.len() != "easeInOutQuart"@.len());
    assert("easeOutQuart"@.len() != "easeInOutQuart"@.len());
    assert("easeLinear"@.len() != "easeInQuint"@.len());
    assert("easeStep"@.len() != "easeInQuint"@.len());
    assert("easeInQuad"@.len() != "easeInQuint"@.len());
    assert("easeOutQuad"@[4] != "easeInQuint"@[4]);
    assert("easeInOutQuad"@.len() != "easeInQuint"@.len());
    assert("easeInCubic"@[6] != "easeInQuint"@[6]);
    assert("easeOutCubic"@.len() != "easeInQuint"@.len());
    assert("easeInOutCubic"@.len() != "easeInQuint"@.len());
    assert("easeInQuart"@[8] != "easeInQuint"@[8]);
    assert("easeOutQuart"@.len() != "easeInQuint"@.len());
    assert("easeInOutQuart"@.len() != "easeInQuint"@.len());
    assert("easeLinear"@.len() != "easeOutQuint"@.len());
    assert("easeStep"@.len() != "easeOutQuint"@.len());
    assert("easeInQuad"@.len() != "easeOutQuint"@.len());
    assert("easeOutQuad"@.len() != "easeOutQuint"@.len());
    assert("easeInOutQuad"@.len() != "easeOutQuint"@.len());
    assert("easeInCubic"@.len() != "easeOutQuint"@.len());
    assert("easeOutCubic"@[7] != "easeOutQuint"@[7]);
    assert("easeInOutCubic"@.len() != "easeOutQuint"@.len());
    assert("easeInQuart"@.len() != "easeOutQuint"@.len());
    assert("easeOutQuart"@[9] != "easeOutQuint"@[9]);
    assert("easeInOutQuart"@.len() != "easeOutQuint"@.len());
    assert("easeInQuint"@.len() != "easeOutQuint"@.len());
    assert("easeLinear"@.len() != "easeInOutQuint"@.len());
    assert("easeStep"@.len() != "easeInOutQuint"@.len());
    assert("easeInQuad"@.len() != "easeInOutQuint"@.len());
    assert("easeOutQuad"@.len() != "easeInOutQuint"@.len());
    assert("easeInOutQuad"@.len() != "easeInOutQuint"@.len());
    assert("easeInCubic"@.len() != "easeInOutQuint"@.len());
    assert("easeOutCubic"@.len() != "easeInOutQuint"@.len());
    assert("easeInOutCubic"@[9] != "easeInOutQuint"@[9]);
    assert("easeInQuart"@.len() != "easeInOutQuint"@.len());
    assert("easeOutQuart"@.len() != "easeInOutQuint"@.len());
    assert("easeInOutQuart"@[11] != "easeInOutQuint"@[11]);
    assert("easeInQuint"@.len() != "easeInOutQuint"@.len());
    assert("easeOutQuint"@.len() != "easeInOutQuint"@.len());
    assert("easeLinear"@[4] != "easeInSine"@[4]);
    assert("easeStep"@.len() != "easeInSine"@.len());
    assert("easeInQuad"@[6] != "easeInSine"@[6]);
    assert("easeOutQuad"@.len() != "easeInSine"@.len());
    assert("easeInOutQuad"@.len() != "easeInSine"@.len());
    assert("easeInCubic"@.len() != "easeInSine"@.len());
    assert("easeOutCubic"@.len() != "easeInSine"@.len());
    assert("easeInOutCubic"@.len() != "easeInSine"@.len());
    assert("easeInQuart"@.len() != "easeInSine"@.len());
    assert("easeOutQuart"@.len() != "easeInSine"@.len());
    assert("easeInOutQuart"@.len() != "easeInSine"@.len());
    assert("easeInQuint"@.len() != "easeInSine"@.len());
    assert("easeOutQuint"@.len() != "easeInSine"@.len());
    assert("easeInOutQuint"@.len() != "easeInSine"@.len());
    assert("easeLinear"@.len() != "easeOutSine"@.len());
    assert("easeStep"@.len() != "easeOutSine"@.len());
    assert("easeInQuad"@.len() != "easeOutSine"@.len());
    assert("easeOutQuad"@[7] != "easeOutSine"@[7]);
    assert("easeInOutQuad"@.len() != "easeOutSine"@.len());
    assert("easeInCubic"@[4] != "easeOutSine"@[4]);
    assert("easeOutCubic"@.len() != "easeOutSine"@.len());
    assert("easeInOutCubic"@.len() != "easeOutSine"@.len());
    assert("easeInQuart"@[4] != "easeOutSine"@[4]);
    assert("easeOutQuart"@.len() != "easeOutSine"@.len());
    assert("easeInOutQuart"@.len() != "easeOutSine"@.len());
    assert("easeInQuint"@[4] != "easeOutSine"@[4]);
    assert("easeOutQuint"@.len() != "easeOutSine"@.len());
    assert("easeInOutQuint"@.len() != "easeOutSine"@.len());
    assert("easeInSine"@.len() != "easeOutSine"@.len());
    assert("easeLinear"@.len() != "easeInOutSine"@.len());
    assert("easeStep"@.len() != "easeInOutSine"@.len());
    assert("easeInQuad"@.len() != "easeInOutSine"@.len());
    assert("easeOutQuad"@.len() != "easeInOutSine"@.len());
    assert("easeInOutQuad"@[9] != "easeInOutSine"@[9]);
    assert("easeInCubic"@.len() != "easeInOutSine"@.len());
    assert("easeOutCubic"@.len() != "easeInOutSine"@.len());
    assert("easeInOutCubic"@.len() != "easeInOutSine"@.len());
    assert("easeInQuart"@.len() != "easeInOutSine"@.len());
    assert("easeOutQuart"@.len() != "easeInOutSine"@.len());
    assert("easeInOutQuart"@.len() != "easeInOutSine"@.len());
    assert("easeInQuint"@.len() != "easeInOutSine"@.len());
    assert("easeOutQuint"@.len() != "easeInOutSine"@.len());
    assert("easeInOutQuint"@.len() != "easeInOutSine"@.len());
    assert("easeInSine"@.len() != "easeInOutSine"@.len());
    assert("easeOutSine"@.len() != "easeInOutSine"@.len());
    assert("easeLinear"@[4] != "easeInCirc"@[4]);
    assert("easeStep"@.len() != "easeInCirc"@.len());
    assert("easeInQuad"@[6] != "easeInCirc"@[6]);
    assert("easeOutQuad"@.len() != "easeInCirc"@.len());
    assert("easeInOutQuad"@.len() != "easeInCirc"@.len());
    assert("easeInCubic"@.len() != "easeInCirc"@.len());
    assert("easeOutCubic"@.len() != "easeInCirc"@.len());
    assert("easeInOutCubic"@.len() != "easeInCirc"@.len());
    assert("easeInQuart"@.len() != "easeInCirc"@.len());
    assert("easeOutQuart"@.len() != "easeInCirc"@.len());
    assert("easeInOutQuart"@.len() != "easeInCirc"@.len());
    assert("easeInQuint"@.len() != "easeInCirc"@.len());
    assert("easeOutQuint"@.len() != "easeInCirc"@.len());
    assert("easeInOutQuint"@.len() != "easeInCirc"@.len());
    assert("easeInSine"@[6] != "easeInCirc"@[6]);
    assert("easeOutSine"@.len() != "easeInCirc"@.len());
    assert("easeInOutSine"@.len() != "easeInCirc"@.len());
    assert("easeLinear"@.len() != "easeOutCirc"@.len());
    assert("easeStep"@.len() != "easeOutCirc"@.len());
    assert("easeInQuad"@.len() != "easeOutCirc"@.len());
    assert("easeOutQuad"@[7] != "easeOutCirc"@[7]);
    assert("easeInOutQuad"@.len() != "easeOutCirc"@.len());
    assert("easeInCubic"@[4] != "easeOutCirc"@[4]);
    assert("easeOutCubic"@.len() != "easeOutCirc"@.len());
    assert("easeInOutCubic"@.len() != "easeOutCirc"@.len());
    assert("easeInQuart"@[4] != "easeOutCirc"@[4]);
    assert("easeOutQuart"@.len() != "easeOutCirc"@.len());
    assert("easeInOutQuart"@.len() != "easeOutCirc"@.len());
    assert("easeInQuint"@[4] != "easeOutCirc"@[4]);
    assert("easeOutQuint"@.len() != "easeOutCirc"@.len());
    assert("easeInOutQuint"@.len() != "easeOutCirc"@.len());
    assert("easeInSine"@.len() != "easeOutCirc"@.len());
    assert("easeOutSine"@[7] != "easeOutCirc"@[7]);
    assert("easeInOutSine"@.len() != "easeOutCirc"@.len());
    assert("easeInCirc"@.len() != "easeOutCirc"@.len());
    assert("easeLinear"@.len() != "easeInOutCirc"@.len());
    assert("easeStep"@.len() != "easeInOutCirc"@.len());
    assert("easeInQuad"@.len() != "easeInOutCirc"@.len());
    assert("easeOutQuad"@.len() != "easeInOutCirc"@.len());
    assert("easeInOutQuad"@[9] != "easeInOutCirc"@[9]);
    assert("easeInCubic"@.len() != "easeInOutCirc"@.len());
    assert("easeOutCubic"@.len() != "easeInOutCirc"@.len());
    assert("easeInOutCubic"@.len() != "easeInOutCirc"@.len());
    assert("easeInQuart"@.len() != "easeInOutCirc"@.len());
    assert("easeOutQuart"@.len() != "easeInOutCirc"@.len());
    assert("easeInOutQuart"@.len() != "easeInOutCirc"@.len());
    assert("easeInQuint"@.len() != "easeInOutCirc"@.len());
    assert("easeOutQuint"@.len() != "easeInOutCirc"@.len());
    assert("easeInOutQuint"@.len() != "easeInOutCirc"@.len());
    assert("easeInSine"@.len() != "easeInOutCirc"@.len());
    assert("easeOutSine"@.len() != "easeInOutCirc"@.len());
    assert("easeInOutSine"@[9] != "easeInOutCirc"@[9]);
    assert("easeInCirc"@.len() != "easeInOutCirc"@.len());
    assert("easeOutCirc"@.len() != "easeInOutCirc"@.len());
    assert("easeLinear"@[4] != "easeInExpo"@[4]);
    assert("easeStep"@.len() != "easeInExpo"@.len());
    assert("easeInQuad"@[6] != "easeInExpo"@[6]);
    assert("easeOutQuad"@.len() != "easeInExpo"@.len());
    assert("easeInOutQuad"@.len() != "easeInExpo"@.len());
    assert("easeInCubic"@.len() != "easeInExpo"@.len());
    assert("easeOutCubic"@.len() != "easeInExpo"@.len());
    assert("easeInOutCubic"@.len() != "easeInExpo"@.len());
    assert("easeInQuart"@.len() != "easeInExpo"@.len());
    assert("easeOutQuart"@.len() != "easeInExpo"@.len());
    assert("easeInOutQuart"@.len() != "easeInExpo"@.len());
    assert("easeInQuint"@.len() != "easeInExpo"@.len());
    assert("easeOutQuint"@.len() != "easeInExpo"@.len());
    assert("easeInOutQuint"@.len() != "easeInExpo"@.len());
    assert("easeInSine"@[6] != "easeInExpo"@[6]);
    assert("easeOutSine"@.len() != "easeInExpo"@.len());
    assert("easeInOutSine"@.len() != "easeInExpo"@.len());
    assert("easeInCirc"@[6] != "easeInExpo"@[6]);
    assert("easeOutCirc"@.len() != "easeInExpo"@.len());
    assert("easeInOutCirc"@.len() != "easeInExpo"@.len());
    assert("easeLinear"@.len() != "easeOutExpo"@.len());
    assert("easeStep"@.len() != "easeOutExpo"@.len());
    assert("easeInQuad"@.len() != "easeOutExpo"@.len());
    assert("easeOutQuad"@[7] != "easeOutExpo"@[7]);
    assert("easeInOutQuad"@.len() != "easeOutExpo"@.len());
    assert("easeInCubic"@[4] != "easeOutExpo"@[4]);
    assert("easeOutCubic"@.len() != "easeOutExpo"@.len());
    assert("easeInOutCubic"@.len() != "easeOutExpo"@.len());
    assert("easeInQuart"@[4] != "easeOutExpo"@[4]);
    assert("easeOutQuart"@.len() != "easeOutExpo"@.len());
    assert("easeInOutQuart"@.len() != "easeOutExpo"@.len());
    assert("easeInQuint"@[4] != "easeOutExpo"@[4]);
    assert("easeOutQuint"@.len() != "easeOutExpo"@.len());
    assert("easeInOutQuint"@.len() != "easeOutExpo"@.len());
    assert("easeInSine"@.len() != "easeOutExpo"@.len());
    assert("easeOutSine"@[7] != "easeOutExpo"@[7]);
    assert("easeInOutSine"@.len() != "easeOutExpo"@.len());
    assert("easeInCirc"@.len() != "easeOutExpo"@.len());
    assert("easeOutCirc"@[7] != "easeOutExpo"@[7]);
    assert("easeInOutCirc"@.len() != "easeOutExpo"@.len());
    assert("easeInExpo"@.len() != "easeOutExpo"@.len());
    assert("easeLinear"@.len() != "easeInOutExpo"@.len());
    assert("easeStep"@.len() != "easeInOutExpo"@.len());
    assert("easeInQuad"@.len() != "easeInOutExpo"@.len());
    assert("easeOutQuad"@.len() != "easeInOutExpo"@.len());
    assert("easeInOutQuad"@[9] != "easeInOutExpo"@[9]);
    assert("easeInCubic"@.len() != "easeInOutExpo"@.len());
    assert("easeOutCubic"@.len() != "easeInOutExpo"@.len());
    assert("easeInOutCubic"@.len() != "easeInOutExpo"@.len());
    assert("easeInQuart"@.len() != "easeInOutExpo"@.len());
    assert("easeOutQuart"@.len() != "easeInOutExpo"@.len());
    assert("easeInOutQuart"@.len() != "easeInOutExpo"@.len());
    assert("easeInQuint"@.len() != "easeInOutExpo"@.len());
    assert("easeOutQuint"@.len() != "easeInOutExpo"@.len());
    assert("easeInOutQuint"@.len() != "easeInOutExpo"@.len());
    assert("easeInSine"@.len() != "easeInOutExpo"@.len());
    assert("easeOutSine"@.len() != "easeInOutExpo"@.len());
    assert("easeInOutSine"@[9] != "easeInOutExpo"@[9]);
    assert("easeInCirc"@.len() != "easeInOutExpo"@.len());
    assert("easeOutCirc"@.len() != "easeInOutExpo"@.len());
    assert("easeInOutCirc"@[9] != "easeInOutExpo"@[9]);
    assert("easeInExpo"@.len() != "easeInOutExpo"@.len());
    assert("easeOutExpo"@.len() != "easeInOutExpo"@.len());
    assert("easeLinear"@.len() != "easeInElastic"@.len());
    assert("easeStep"@.len() != "easeInElastic"@.len());
    assert("easeInQuad"@.len() != "easeInElastic"@.len());
    assert("easeOutQuad"@.len() != "easeInElastic"@.len());
    assert("easeInOutQuad"@[6] != "easeInElastic"@[6]);
    assert("easeInCubic"@.len() != "easeInElastic"@.len());
    assert("easeOutCubic"@.len() != "easeInElastic"@.len());
    assert("easeInOutCubic"@.len() != "easeInElastic"@.len());
    assert("easeInQuart"@.len() != "easeInElastic"@.len());
    assert("easeOutQuart"@.len() != "easeInElastic"@.len());
    assert("easeInOutQuart"@.len() != "easeInElastic"@.len());
    assert("easeInQuint"@.len() != "easeInElastic"@.len());
    assert("easeOutQuint"@.len() != "easeInElastic"@.len());
    assert("easeInOutQuint"@.len() != "easeInElastic"@.len());
    assert("easeInSine"@.len() != "easeInElastic"@.len());
    assert("easeOutSine"@.len() != "easeInElastic"@.len());
    assert("easeInOutSine"@[6] != "easeInElastic"@[6]);
    assert("easeInCirc"@.len() != "easeInElastic"@.len());
    assert("easeOutCirc"@.len() != "easeInElastic"@.len());
    assert("easeInOutCirc"@[6] != "easeInElastic"@[6]);
    assert("easeInExpo"@.len() != "easeInElastic"@.len());
    assert("easeOutExpo"@.len() != "easeInElastic"@.len());
    assert("easeInOutExpo"@[6] != "easeInElastic"@[6]);
    assert("easeLinear"@.len() != "easeOutElastic"@.len());
    assert("easeStep"@.len() != "easeOutElastic"@.len());
    assert("easeInQuad"@.len() != "easeOutElastic"@.len());
    assert("easeOutQuad"@.len() != "easeOutElastic"@.len());
    assert("easeInOutQuad"@.len() != "easeOutElastic"@.len());
    assert("easeInCubic"@.len() != "easeOutElastic"@.len());
    assert("easeOutCubic"@.len() != "easeOutElastic"@.len());
    assert("easeInOutCubic"@[4] != "easeOutElastic"@[4]);
    assert("easeInQuart"@.len() != "easeOutElastic"@.len());
    assert("easeOutQuart"@.len() != "easeOutElastic"@.len());
    assert("easeInOutQuart"@[4] != "easeOutElastic"@[4]);
    assert("easeInQuint"@.len() != "easeOutElastic"@.len());
    assert("easeOutQuint"@.len() != "easeOutElastic"@.len());
    assert("easeInOutQuint"@[4] != "easeOutElastic"@[4]);
    assert("easeInSine"@.len() != "easeOutElastic"@.len());
    assert("easeOutSine"@.len() != "easeOutElastic"@.len());
    assert("easeInOutSine"@.len() != "easeOutElastic"@.len());
    assert("easeInCirc"@.len() != "easeOutElastic"@.len());
    assert("easeOutCirc"@.len() != "easeOutElastic"@.len());
    assert("easeInOutCirc"@.len() != "easeOutElastic"@.len());
    assert("easeInExpo"@.len() != "easeOutElastic"@.len());
    assert("easeOutExpo"@.len() != "easeOutElastic"@.len());
    assert("easeInOutExpo"@.len() != "easeOutElastic"@.len());
    assert("easeInElastic"@.len() != "easeOutElastic"@.len());
    assert("easeLinear"@.len() != "easeInOutElastic"@.len());
    assert("easeStep"@.len() != "easeInOutElastic"@.len());
    assert("easeInQuad"@.len() != "easeInOutElastic"@.len());
    assert("easeOutQuad"@.len() != "easeInOutElastic"@.len());
    assert("easeInOutQuad"@.len() != "easeInOutElastic"@.len());
    assert("easeInCubic"@.len() != "easeInOutElastic"@.len());
    assert("easeOutCubic"@.len() != "easeInOutElastic"@.len());
    assert("easeInOutCubic"@.len() != "easeInOutElastic"@.len());
    assert("easeInQuart"@.len() != "easeInOutElastic"@.len());
    assert("easeOutQuart"@.len() != "easeInOutElastic"@.len());
    assert("easeInOutQuart"@.len() != "easeInOutElastic"@.len());
    assert("easeInQuint"@.len() != "easeInOutElastic"@.len());
    assert("easeOutQuint"@.len() != "easeInOutElastic"@.len());
    assert("easeInOutQuint"@.len() != "easeInOutElastic"@.len());
    assert("easeInSine"@.len() != "easeInOutElastic"@.len());
    assert("easeOutSine"@.len() != "easeInOutElastic"@.len());
    assert("easeInOutSine"@.len() != "easeInOutElastic"@.len());
    assert("easeInCirc"@.len() != "easeInOutElastic"@.len());
    assert("easeOutCirc"@.len() != "easeInOutElastic"@.len());
    assert("easeInOutCirc"@.len() != "easeInOutElastic"@.len());
    assert("easeInExpo"@.len() != "easeInOutElastic"@.len());
    assert("easeOutExpo"@.len() != "easeInOutElastic"@.len());
    assert("easeInOutExpo"@.len() != "easeInOutElastic"@.len());
    assert("easeInElastic"@.len() != "easeInOutElastic"@.len());
    assert("easeOutElastic"@.len() != "easeInOutElastic"@.len());
    assert("easeLinear"@[4] != "easeInBack"@[4]);
    assert("easeStep"@.len() != "easeInBack"@.len());
    assert("easeInQuad"@[6] != "easeInBack"@[6]);
    assert("easeOutQuad"@.len() != "easeInBack"@.len());
    assert("easeInOutQuad"@.len() != "easeInBack"@.len());
    assert("easeInCubic"@.len() != "easeInBack"@.len());
    assert("easeOutCubic"@.len() != "easeInBack"@.len());
    assert("easeInOutCubic"@.len() != "easeInBack"@.len());
    assert("easeInQuart"@.len() != "easeInBack"@.len());
    assert("easeOutQuart"@.len() != "easeInBack"@.len());
    assert("easeInOutQuart"@.len() != "easeInBack"@.len());
    assert("easeInQuint"@.len() != "easeInBack"@.len());
    assert("easeOutQuint"@.len() != "easeInBack"@.len());
    assert("easeInOutQuint"@.len() != "easeInBack"@.len());
    assert("easeInSine"@[6] != "easeInBack"@[6]);
    assert("easeOutSine"@.len() != "easeInBack"@.len());
    assert("easeInOutSine"@.len() != "easeInBack"@.len());
    assert("easeInCirc"@[6] != "easeInBack"@[6]);
    assert("easeOutCirc"@.len() != "easeInBack"@.len());
    assert("easeInOutCirc"@.len() != "easeInBack"@.len());
    assert("easeInExpo"@[6] != "easeInBack"@[6]);
    assert("easeOutExpo"@.len() != "easeInBack"@.len());
    assert("easeInOutExpo"@.len() != "easeInBack"@.len());
    assert("easeInElastic"@.len() != "easeInBack"@.len());
    assert("easeOutElastic"@.len() != "easeInBack"@.len());
    assert("easeInOutElastic"@.len() != "easeInBack"@.len());
    assert("easeLinear"@.len() != "easeOutBack"@.len());
    assert("easeStep"@.len() != "easeOutBack"@.len());
    assert("easeInQuad"@.len() != "easeOutBack"@.len());
    assert("easeOutQuad"@[7] != "easeOutBack"@[7]);
    assert("easeInOutQuad"@.len() != "easeOutBack"@.len());
    assert("easeInCubic"@[4] != "easeOutBack"@[4]);
    assert("easeOutCubic"@.len() != "easeOutBack"@.len());
    assert("easeInOutCubic"@.len() != "easeOutBack"@.len());
    assert("easeInQuart"@[4] != "easeOutBack"@[4]);
    assert("easeOutQuart"@.len() != "easeOutBack"@.len());
    assert("easeInOutQuart"@.len() != "easeOutBack"@.len());
    assert("easeInQuint"@[4] != "easeOutBack"@[4]);
    assert("easeOutQuint"@.len() != "easeOutBack"@.len());
    assert("easeInOutQuint"@.len() != "easeOutBack"@.len());
    assert("easeInSine"@.len() != "easeOutBack"@.len());
    assert("easeOutSine"@[7] != "easeOutBack"@[7]);
    assert("easeInOutSine"@.len() != "easeOutBack"@.len());
    assert("easeInCirc"@.len() != "easeOutBack"@.len());
    assert("easeOutCirc"@[7] != "easeOutBack"@[7]);
    assert("easeInOutCirc"@.len() != "easeOutBack"@.len());
    assert("easeInExpo"@.len() != "easeOutBack"@.len());
    assert("easeOutExpo"@[7] != "easeOutBack"@[7]);
    assert("easeInOutExpo"@.len() != "easeOutBack"@.len());
    assert("easeInElastic"@.len() != "easeOutBack"@.len());
    assert("easeOutElastic"@.len() != "easeOutBack"@.len());
    assert("easeInOutElastic"@.len() != "easeOutBack"@.len());
    assert("easeInBack"@.len() != "easeOutBack"@.len());
    assert("easeLinear"@.len() != "easeInOutBack"@.len());
    assert("easeStep"@.len() != "easeInOutBack"@.len());
    assert("easeInQuad"@.len() != "easeInOutBack"@.len());
    assert("easeOutQuad"@.len() != "easeInOutBack"@.len());
    assert("easeInOutQuad"@[9] != "easeInOutBack"@[9]);
    assert("easeInCubic"@.len() != "easeInOutBack"@.len());
    assert("easeOutCubic"@.len() != "easeInOutBack"@.len());
    assert("easeInOutCubic"@.len() != "easeInOutBack"@.len());
    assert("easeInQuart"@.len() != "easeInOutBack"@.len());
    assert("easeOutQuart"@.len() != "easeInOutBack"@.len());
    assert("easeInOutQuart"@.len() != "easeInOutBack"@.len());
    assert("easeInQuint"@.len() != "easeInOutBack"@.len());
    assert("easeOutQuint"@.len() != "easeInOutBack"@.len());
    assert("easeInOutQuint"@.len() != "easeInOutBack"@.len());
    assert("easeInSine"@.len() != "easeInOutBack"@.len());
    assert("easeOutSine"@.len() != "easeInOutBack"@.len());
    assert("easeInOutSine"@[9] != "easeInOutBack"@[9]);
    assert("easeInCirc"@.len() != "easeInOutBack"@.len());
    assert("easeOutCirc"@.len() != "easeInOutBack"@.len());
    assert("easeInOutCirc"@[9] != "easeInOutBack"@[9]);
    assert("easeInExpo"@.len() != "easeInOutBack"@.len());
    assert("easeOutExpo"@.len() != "easeInOutBack"@.len());
    assert("easeInOutExpo"@[9] != "easeInOutBack"@[9]);
    assert("easeInElastic"@[6] != "easeInOutBack"@[6]);
    assert("easeOutElastic"@.len() != "easeInOutBack"@.len());
    assert("easeInOutElastic"@.len() != "easeInOutBack"@.len());
    assert("easeInBack"@.len() != "easeInOutBack"@.len());
    assert("easeOutBack"@.len() != "easeInOutBack"@.len());
    assert("easeLinear"@.len() != "easeInBounce"@.len());
    assert("easeStep"@.len() != "easeInBounce"@.len());
    assert("easeInQuad"@.len() != "easeInBounce"@.len());
    assert("easeOutQuad"@.len() != "easeInBounce"@.len());
    assert("easeInOutQuad"@.len() != "easeInBounce"@.len());
    assert("easeInCubic"@.len() != "easeInBounce"@.len());
    assert("easeOutCubic"@[4] != "easeInBounce"@[4]);
    assert("easeInOutCubic"@.len() != "easeInBounce"@.len());
    assert("easeInQuart"@.len() != "easeInBounce"@.len());
    assert("easeOutQuart"@[4] != "easeInBounce"@[4]);
    assert("easeInOutQuart"@.len() != "easeInBounce"@.len());
    assert("easeInQuint"@.len() != "easeInBounce"@.len());
    assert("easeOutQuint"@[4] != "easeInBounce"@[4]);
    assert("easeInOutQuint"@.len() != "easeInBounce"@.len());
    assert("easeInSine"@.len() != "easeInBounce"@.len());
    assert("easeOutSine"@.len() != "easeInBounce"@.len());
    assert("easeInOutSine"@.len() != "easeInBounce"@.len());
    assert("easeInCirc"@.len() != "easeInBounce"@.len());
    assert("easeOutCirc"@.len() != "easeInBounce"@.len());
    assert("easeInOutCirc"@.len() != "easeInBounce"@.len());
    assert("easeInExpo"@.len() != "easeInBounce"@.len());
    assert("easeOutExpo"@.len() != "easeInBounce"@.len());
    assert("easeInOutExpo"@.len() != "easeInBounce"@.len());
    assert("easeInElastic"@.len() != "easeInBounce"@.len());
    assert("easeOutElastic"@.len() != "easeInBounce"@.len());
    assert("easeInOutElastic"@.len() != "easeInBounce"@.len());
    assert("easeInBack"@.len() != "easeInBounce"@.len());
    assert("easeOutBack"@.len() != "easeInBounce"@.len());
    assert("easeInOutBack"@.len() != "easeInBounce"@.len());
    assert("easeLinear"@.len() != "easeOutBounce"@.len());
    assert("easeStep"@.len() != "easeOutBounce"@.len());
    assert("easeInQuad"@.len() != "easeOutBounce"@.len());
    assert("easeOutQuad"@.len() != "easeOutBounce"@.len());
    assert("easeInOutQuad"@[4] != "easeOutBounce"@[4]);
    assert("easeInCubic"@.len() != "easeOutBounce"@.len());
    assert("easeOutCubic"@.len() != "easeOutBounce"@.len());
    assert("easeInOutCubic"@.len() != "easeOutBounce"@.len());
    assert("easeInQuart"@.len() != "easeOutBounce"@.len());
    assert("easeOutQuart"@.len() != "easeOutBounce"@.len());
    assert("easeInOutQuart"@.len() != "easeOutBounce"@.len());
    assert("easeInQuint"@.len() != "easeOutBounce"@.len());
    assert("easeOutQuint"@.len() != "easeOutBounce"@.len());
    assert("easeInOutQuint"@.len() != "easeOutBounce"@.len());
    assert("easeInSine"@.len() != "easeOutBounce"@.len());
    assert("easeOutSine"@.len() != "easeOutBounce"@.len());
    assert("easeInOutSine"@[4] != "easeOutBounce"@[4]);
    assert("easeInCirc"@.len() != "easeOutBounce"@.len());
    assert("easeOutCirc"@.len() != "easeOutBounce"@.len());
    assert("easeInOutCirc"@[4] != "easeOutBounce"@[4]);
    assert("easeInExpo"@.len() != "easeOutBounce"@.len());
    assert("easeOutExpo"@.len() != "easeOutBounce"@.len());
    assert("easeInOutExpo"@[4] != "easeOutBounce"@[4]);
    assert("easeInElastic"@[4] != "easeOutBounce"@[4]);
    assert("easeOutElastic"@.len() != "easeOutBounce"@.len());
    assert("easeInOutElastic"@.len() != "easeOutBounce"@.len());
    assert("easeInBack"@.len() != "easeOutBounce"@.len());
    assert("easeOutBack"@.len() != "easeOutBounce"@.len());
    assert("easeInOutBack"@[4] != "easeOutBounce"@[4]);
    assert("easeInBounce"@.len() != "easeOutBounce"@.len());
    assert("easeLinear"@.len() != "easeInOutBounce"@.len());
    assert("easeStep"@.len() != "easeInOutBounce"@.len());
    assert("easeInQuad"@.len() != "easeInOutBounce"@.len());
    assert("easeOutQuad"@.len() != "easeInOutBounce"@.len());
    assert("easeInOutQuad"@.len() != "easeInOutBounce"@.len());
    assert("easeInCubic"@.len() != "easeInOutBounce"@.len());
    assert("easeOutCubic"@.len() != "easeInOutBounce"@.len());
    assert("easeInOutCubic"@.len() != "easeInOutBounce"@.len());
    assert("easeInQuart"@.len() != "easeInOutBounce"@.len());
    assert("easeOutQuart"@.len() != "easeInOutBounce"@.len());
    assert("easeInOutQuart"@.len() != "easeInOutBounce"@.len());
    assert("easeInQuint"@.len() != "easeInOutBounce"@.len());
    assert("easeOutQuint"@.len() != "easeInOutBounce"@.len());
    assert("easeInOutQuint"@.len() != "easeInOutBounce"@.len());
    assert("easeInSine"@.len() != "easeInOutBounce"@.len());
    assert("easeOutSine"@.len() != "easeInOutBounce"@.len());
    assert("easeInOutSine"@.len() != "easeInOutBounce"@.len());
    assert("easeInCirc"@.len() != "easeInOutBounce"@.len());
    assert("easeOutCirc"@.len() != "easeInOutBounce"@.len());
    assert("easeInOutCirc"@.len() != "easeInOutBounce"@.len());
    assert("easeInExpo"@.len() != "easeInOutBounce"@.len());
    assert("easeOutExpo"@.len() != "easeInOutBounce"@.len());
    assert("easeInOutExpo"@.len() != "easeInOutBounce"@.len());
    assert("easeInElastic"@.len() != "easeInOutBounce"@.len());
    assert("easeOutElastic"@.len() != "easeInOutBounce"@.len());
    assert("easeInOutElastic"@.len() != "easeInOutBounce"@.len());
    assert("easeInBack"@.len() != "easeInOutBounce"@.len());
    assert("easeOutBack"@.len() != "easeInOutBounce"@.len());
    assert("easeInOutBack"@.len() != "easeInOutBounce"@.len());
    assert("easeInBounce"@.len() != "easeInOutBounce"@.len());
    assert("easeOutBounce"@.len() != "easeInOutBounce"@.len());
}

} // verus!
