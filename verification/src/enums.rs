//! Closed enumerations of the schema. Each variant carries a display ordinal
//! and a canonical symbolic name; the two lookup directions are generated
//! from one table per enum and proved to agree, so that encoding a variant
//! and decoding it back is the identity.

use vstd::prelude::*;
use crate::text::{is_digit, dec_val, sint_result, parse_sint, seq_ieq, str_ieq};

verus! {

/// One digit on its own reads as its value.
proof fn lemma_dec_digit(c: char)
    requires
        is_digit(c),
    ensures
        dec_val(seq![c]) == (c as u32 - 48) as nat,
{
    assert(seq![c].drop_last() =~= Seq::<char>::empty());
    assert(dec_val(Seq::<char>::empty()) == 0);
}

// --- frame-rate limiter strategy ---

/// When the frame limiter inserts its wait.
#[derive(Clone, Copy, Debug, PartialEq, Eq, Structural)]
pub enum FpsLimitMethod {
    Early,
    Late,
}

impl FpsLimitMethod {
    pub open spec fn ord_of(self) -> int {
        match self {
            FpsLimitMethod::Early => 0,
            FpsLimitMethod::Late => 1,
        }
    }

    pub open spec fn name_of(self) -> Seq<char> {
        match self {
            FpsLimitMethod::Early => "early"@,
            FpsLimitMethod::Late => "late"@,
        }
    }

    /// What a limiter-strategy token decodes to: the symbolic name matched
    /// without regard to letter case. This field takes no ordinal form.
    pub open spec fn from_text_spec(s: Seq<char>) -> Option<FpsLimitMethod> {
        if seq_ieq(s, "early"@) {
            Some(FpsLimitMethod::Early)
        } else if seq_ieq(s, "late"@) {
            Some(FpsLimitMethod::Late)
        } else {
            None
        }
    }

    pub fn from_text(s: &str) -> (r: Option<FpsLimitMethod>)
        ensures
            r == Self::from_text_spec(s@),
    {
        if str_ieq(s, "early") {
            Some(FpsLimitMethod::Early)
        } else if str_ieq(s, "late") {
            Some(FpsLimitMethod::Late)
        } else {
            None
        }
    }

    pub fn ordinal(self) -> (r: i64)
        ensures
            r == self.ord_of(),
    {
        match self {
            FpsLimitMethod::Early => 0,
            FpsLimitMethod::Late => 1,
        }
    }

    pub fn name(self) -> (r: &'static str)
        ensures
            r@ == self.name_of(),
    {
        match self {
            FpsLimitMethod::Early => "early",
            FpsLimitMethod::Late => "late",
        }
    }
}

/// The name of a limiter strategy decodes back to it.
pub proof fn lemma_fps_limit_method_codec(v: FpsLimitMethod)
    ensures
        FpsLimitMethod::from_text_spec(v.name_of()) == Some(v),
{
    reveal_strlit("early");
    reveal_strlit("late");
}

// --- vertical sync mode ---

/// How presentation is synchronized to the display.
#[derive(Clone, Copy, Debug, PartialEq, Eq, Structural)]
pub enum VSync {
    Adaptive,
    Off,
    Mailbox,
    On,
}

impl VSync {
    pub open spec fn ord_of(self) -> int {
        match self {
            VSync::Adaptive => 0,
            VSync::Off => 1,
            VSync::Mailbox => 2,
            VSync::On => 3,
        }
    }

    pub open spec fn ord_text_of(self) -> Seq<char> {
        match self {
            VSync::Adaptive => "0"@,
            VSync::Off => "1"@,
            VSync::Mailbox => "2"@,
            VSync::On => "3"@,
        }
    }

    pub open spec fn name_of(self) -> Seq<char> {
        match self {
            VSync::Adaptive => "adaptive"@,
            VSync::Off => "off"@,
            VSync::Mailbox => "mailbox"@,
            VSync::On => "on"@,
        }
    }

    pub open spec fn from_ord_spec(k: int) -> Option<VSync> {
        if k == 0 {
            Some(VSync::Adaptive)
        } else if k == 1 {
            Some(VSync::Off)
        } else if k == 2 {
            Some(VSync::Mailbox)
        } else if k == 3 {
            Some(VSync::On)
        } else {
            None
        }
    }

    pub open spec fn from_name_spec(s: Seq<char>) -> Option<VSync> {
        if seq_ieq(s, "adaptive"@) {
            Some(VSync::Adaptive)
        } else if seq_ieq(s, "off"@) {
            Some(VSync::Off)
        } else if seq_ieq(s, "mailbox"@) {
            Some(VSync::Mailbox)
        } else if seq_ieq(s, "on"@) {
            Some(VSync::On)
        } else {
            None
        }
    }

    /// What a vsync token decodes to: decimal ordinal or case-insensitive name.
    pub open spec fn from_text_spec(s: Seq<char>) -> Option<VSync> {
        match sint_result(s, 0, 3) {
            Some(k) => Self::from_ord_spec(k as int),
            None => Self::from_name_spec(s),
        }
    }

    pub fn from_text(s: &str) -> (r: Option<VSync>)
        ensures
            r == Self::from_text_spec(s@),
    {
        match parse_sint(s, 0, 3) {
            Some(k) => if k == 0 {
                Some(VSync::Adaptive)
            } else if k == 1 {
                Some(VSync::Off)
            } else if k == 2 {
                Some(VSync::Mailbox)
            } else {
                Some(VSync::On)
            },
            None => if str_ieq(s, "adaptive") {
                Some(VSync::Adaptive)
            } else if str_ieq(s, "off") {
                Some(VSync::Off)
            } else if str_ieq(s, "mailbox") {
                Some(VSync::Mailbox)
            } else if str_ieq(s, "on") {
                Some(VSync::On)
            } else {
                None
            },
        }
    }

    pub fn ordinal(self) -> (r: i64)
        ensures
            r == self.ord_of(),
    {
        match self {
            VSync::Adaptive => 0,
            VSync::Off => 1,
            VSync::Mailbox => 2,
            VSync::On => 3,
        }
    }

    pub fn name(self) -> (r: &'static str)
        ensures
            r@ == self.name_of(),
    {
        match self {
            VSync::Adaptive => "adaptive",
            VSync::Off => "off",
            VSync::Mailbox => "mailbox",
            VSync::On => "on",
        }
    }
}

/// Both textual encodings of a vsync mode decode back to it.
pub proof fn lemma_vsync_codec(v: VSync)
    ensures
        VSync::from_text_spec(v.ord_text_of()) == Some(v),
        VSync::from_text_spec(v.name_of()) == Some(v),
{
    reveal_strlit("0");
    reveal_strlit("1");
    reveal_strlit("2");
    reveal_strlit("3");
    reveal_strlit("adaptive");
    reveal_strlit("off");
    reveal_strlit("mailbox");
    reveal_strlit("on");
    assert("0"@ =~= seq!['0']);
    assert("1"@ =~= seq!['1']);
    assert("2"@ =~= seq!['2']);
    assert("3"@ =~= seq!['3']);
    lemma_dec_digit('0');
    lemma_dec_digit('1');
    lemma_dec_digit('2');
    lemma_dec_digit('3');
    assert(!is_digit("adaptive"@[0]));
    assert(!is_digit("off"@[0]));
    assert(!is_digit("mailbox"@[0]));
    assert(!is_digit("on"@[0]));
}

// --- HUD preset ---

/// Which built-in layout preset is selected; `Unset` is the sentinel for
/// "no preset chosen" and encodes as the ordinal -1.
#[derive(Clone, Copy, Debug, PartialEq, Eq, Structural)]
pub enum HudPreset {
    Unset,
    Off,
    FpsOnly,
    Horizontal,
    Extended,
    Detailed,
}

impl HudPreset {
    pub open spec fn ord_of(self) -> int {
        match self {
            HudPreset::Unset => -1,
            HudPreset::Off => 0,
            HudPreset::FpsOnly => 1,
            HudPreset::Horizontal => 2,
            HudPreset::Extended => 3,
            HudPreset::Detailed => 4,
        }
    }

    pub open spec fn ord_text_of(self) -> Seq<char> {
        match self {
            HudPreset::Unset => "-1"@,
            HudPreset::Off => "0"@,
            HudPreset::FpsOnly => "1"@,
            HudPreset::Horizontal => "2"@,
            HudPreset::Extended => "3"@,
            HudPreset::Detailed => "4"@,
        }
    }

    pub open spec fn name_of(self) -> Seq<char> {
        match self {
            HudPreset::Unset => "unset"@,
            HudPreset::Off => "off"@,
            HudPreset::FpsOnly => "fps-only"@,
            HudPreset::Horizontal => "horizontal"@,
            HudPreset::Extended => "extended"@,
            HudPreset::Detailed => "detailed"@,
        }
    }

    pub open spec fn from_ord_spec(k: int) -> Option<HudPreset> {
        if k == -1 {
            Some(HudPreset::Unset)
        } else if k == 0 {
            Some(HudPreset::Off)
        } else if k == 1 {
            Some(HudPreset::FpsOnly)
        } else if k == 2 {
            Some(HudPreset::Horizontal)
        } else if k == 3 {
            Some(HudPreset::Extended)
        } else if k == 4 {
            Some(HudPreset::Detailed)
        } else {
            None
        }
    }

    pub open spec fn from_name_spec(s: Seq<char>) -> Option<HudPreset> {
        if seq_ieq(s, "unset"@) {
            Some(HudPreset::Unset)
        } else if seq_ieq(s, "off"@) {
            Some(HudPreset::Off)
        } else if seq_ieq(s, "fps-only"@) {
            Some(HudPreset::FpsOnly)
        } else if seq_ieq(s, "horizontal"@) {
            Some(HudPreset::Horizontal)
        } else if seq_ieq(s, "extended"@) {
            Some(HudPreset::Extended)
        } else if seq_ieq(s, "detailed"@) {
            Some(HudPreset::Detailed)
        } else {
            None
        }
    }

    /// What a preset token decodes to: decimal ordinal (the sentinel may be
    /// negative) or case-insensitive name.
    pub open spec fn from_text_spec(s: Seq<char>) -> Option<HudPreset> {
        match sint_result(s, -1, 4) {
            Some(k) => Self::from_ord_spec(k as int),
            None => Self::from_name_spec(s),
        }
    }

    pub fn from_text(s: &str) -> (r: Option<HudPreset>)
        ensures
            r == Self::from_text_spec(s@),
    {
        match parse_sint(s, -1, 4) {
            Some(k) => if k == -1 {
                Some(HudPreset::Unset)
            } else if k == 0 {
                Some(HudPreset::Off)
            } else if k == 1 {
                Some(HudPreset::FpsOnly)
            } else if k == 2 {
                Some(HudPreset::Horizontal)
            } else if k == 3 {
                Some(HudPreset::Extended)
            } else {
                Some(HudPreset::Detailed)
            },
            None => if str_ieq(s, "unset") {
                Some(HudPreset::Unset)
            } else if str_ieq(s, "off") {
                Some(HudPreset::Off)
            } else if str_ieq(s, "fps-only") {
                Some(HudPreset::FpsOnly)
            } else if str_ieq(s, "horizontal") {
                Some(HudPreset::Horizontal)
            } else if str_ieq(s, "extended") {
                Some(HudPreset::Extended)
            } else if str_ieq(s, "detailed") {
                Some(HudPreset::Detailed)
            } else {
                None
            },
        }
    }

    pub fn ordinal(self) -> (r: i64)
        ensures
            r == self.ord_of(),
    {
        match self {
            HudPreset::Unset => -1,
            HudPreset::Off => 0,
            HudPreset::FpsOnly => 1,
            HudPreset::Horizontal => 2,
            HudPreset::Extended => 3,
            HudPreset::Detailed => 4,
        }
    }

    pub fn name(self) -> (r: &'static str)
        ensures
            r@ == self.name_of(),
    {
        match self {
            HudPreset::Unset => "unset",
            HudPreset::Off => "off",
            HudPreset::FpsOnly => "fps-only",
            HudPreset::Horizontal => "horizontal",
            HudPreset::Extended => "extended",
            HudPreset::Detailed => "detailed",
        }
    }
}

/// Both textual encodings of a preset decode back to it.
pub proof fn lemma_hud_preset_codec(v: HudPreset)
    ensures
        HudPreset::from_text_spec(v.ord_text_of()) == Some(v),
        HudPreset::from_text_spec(v.name_of()) == Some(v),
{
    reveal_strlit("-1");
    reveal_strlit("0");
    reveal_strlit("1");
    reveal_strlit("2");
    reveal_strlit("3");
    reveal_strlit("4");
    reveal_strlit("unset");
    reveal_strlit("off");
    reveal_strlit("fps-only");
    reveal_strlit("horizontal");
    reveal_strlit("extended");
    reveal_strlit("detailed");
    assert("0"@ =~= seq!['0']);
    assert("1"@ =~= seq!['1']);
    assert("2"@ =~= seq!['2']);
    assert("3"@ =~= seq!['3']);
    assert("4"@ =~= seq!['4']);
    assert("-1"@.skip(1) =~= seq!['1']);
    lemma_dec_digit('0');
    lemma_dec_digit('1');
    lemma_dec_digit('2');
    lemma_dec_digit('3');
    lemma_dec_digit('4');
    assert(!is_digit("unset"@[0]));
    assert(!is_digit("off"@[0]));
    assert(!is_digit("fps-only"@[0]));
    assert(!is_digit("horizontal"@[0]));
    assert(!is_digit("extended"@[0]));
    assert(!is_digit("detailed"@[0]));
    assert(!crate::text::char_ieq("extended"@[0], "detailed"@[0]));
    assert(!crate::text::char_ieq("extended"@[0], "fps-only"@[0]));
    assert(!crate::text::char_ieq("detailed"@[0], "fps-only"@[0]));
}

// --- HUD screen position ---

/// Where on the screen the overlay sits. The textual form is the kebab-cased
/// name only; no ordinal form is accepted.
#[derive(Clone, Copy, Debug, PartialEq, Eq, Structural)]
pub enum HudPosition {
    TopLeft,
    TopCenter,
    TopRight,
    MiddleLeft,
    MiddleRight,
    BottomLeft,
    BottomRight,
}

impl HudPosition {
    pub open spec fn ord_of(self) -> int {
        match self {
            HudPosition::TopLeft => 0,
            HudPosition::TopCenter => 1,
            HudPosition::TopRight => 2,
            HudPosition::MiddleLeft => 3,
            HudPosition::MiddleRight => 4,
            HudPosition::BottomLeft => 5,
            HudPosition::BottomRight => 6,
        }
    }

    pub open spec fn name_of(self) -> Seq<char> {
        match self {
            HudPosition::TopLeft => "top-left"@,
            HudPosition::TopCenter => "top-center"@,
            HudPosition::TopRight => "top-right"@,
            HudPosition::MiddleLeft => "middle-left"@,
            HudPosition::MiddleRight => "middle-right"@,
            HudPosition::BottomLeft => "bottom-left"@,
            HudPosition::BottomRight => "bottom-right"@,
        }
    }

    /// What a position token decodes to: a case-insensitive kebab-cased name.
    pub open spec fn from_text_spec(s: Seq<char>) -> Option<HudPosition> {
        if seq_ieq(s, "top-left"@) {
            Some(HudPosition::TopLeft)
        } else if seq_ieq(s, "top-center"@) {
            Some(HudPosition::TopCenter)
        } else if seq_ieq(s, "top-right"@) {
            Some(HudPosition::TopRight)
        } else if seq_ieq(s, "middle-left"@) {
            Some(HudPosition::MiddleLeft)
        } else if seq_ieq(s, "middle-right"@) {
            Some(HudPosition::MiddleRight)
        } else if seq_ieq(s, "bottom-left"@) {
            Some(HudPosition::BottomLeft)
        } else if seq_ieq(s, "bottom-right"@) {
            Some(HudPosition::BottomRight)
        } else {
            None
        }
    }

    pub fn from_text(s: &str) -> (r: Option<HudPosition>)
        ensures
            r == Self::from_text_spec(s@),
    {
        if str_ieq(s, "top-left") {
            Some(HudPosition::TopLeft)
        } else if str_ieq(s, "top-center") {
            Some(HudPosition::TopCenter)
        } else if str_ieq(s, "top-right") {
            Some(HudPosition::TopRight)
        } else if str_ieq(s, "middle-left") {
            Some(HudPosition::MiddleLeft)
        } else if str_ieq(s, "middle-right") {
            Some(HudPosition::MiddleRight)
        } else if str_ieq(s, "bottom-left") {
            Some(HudPosition::BottomLeft)
        } else if str_ieq(s, "bottom-right") {
            Some(HudPosition::BottomRight)
        } else {
            None
        }
    }

    pub fn ordinal(self) -> (r: i64)
        ensures
            r == self.ord_of(),
    {
        match self {
            HudPosition::TopLeft => 0,
            HudPosition::TopCenter => 1,
            HudPosition::TopRight => 2,
            HudPosition::MiddleLeft => 3,
            HudPosition::MiddleRight => 4,
            HudPosition::BottomLeft => 5,
            HudPosition::BottomRight => 6,
        }
    }

    pub fn name(self) -> (r: &'static str)
        ensures
            r@ == self.name_of(),
    {
        match self {
            HudPosition::TopLeft => "top-left",
            HudPosition::TopCenter => "top-center",
            HudPosition::TopRight => "top-right",
            HudPosition::MiddleLeft => "middle-left",
            HudPosition::MiddleRight => "middle-right",
            HudPosition::BottomLeft => "bottom-left",
            HudPosition::BottomRight => "bottom-right",
        }
    }
}

/// The kebab-cased name of a position decodes back to it.
pub proof fn lemma_hud_position_codec(v: HudPosition)
    ensures
        HudPosition::from_text_spec(v.name_of()) == Some(v),
{
    reveal_strlit("top-left");
    reveal_strlit("top-center");
    reveal_strlit("top-right");
    reveal_strlit("middle-left");
    reveal_strlit("middle-right");
    reveal_strlit("bottom-left");
    reveal_strlit("bottom-right");
    assert(!crate::text::char_ieq("middle-left"@[0], "bottom-left"@[0]));
    assert(!crate::text::char_ieq("middle-right"@[0], "bottom-right"@[0]));
}

// --- FCAT overlay edge ---

/// Which screen edge the FCAT bar hugs.
#[derive(Clone, Copy, Debug, PartialEq, Eq, Structural)]
pub enum FcatOverlayEdge {
    Left,
    Bottom,
    Right,
    Top,
}

impl FcatOverlayEdge {
    pub open spec fn ord_of(self) -> int {
        match self {
            FcatOverlayEdge::Left => 0,
            FcatOverlayEdge::Bottom => 1,
            FcatOverlayEdge::Right => 2,
            FcatOverlayEdge::Top => 3,
        }
    }

    pub open spec fn ord_text_of(self) -> Seq<char> {
        match self {
            FcatOverlayEdge::Left => "0"@,
            FcatOverlayEdge::Bottom => "1"@,
            FcatOverlayEdge::Right => "2"@,
            FcatOverlayEdge::Top => "3"@,
        }
    }

    pub open spec fn name_of(self) -> Seq<char> {
        match self {
            FcatOverlayEdge::Left => "left"@,
            FcatOverlayEdge::Bottom => "bottom"@,
            FcatOverlayEdge::Right => "right"@,
            FcatOverlayEdge::Top => "top"@,
        }
    }

    pub open spec fn from_ord_spec(k: int) -> Option<FcatOverlayEdge> {
        if k == 0 {
            Some(FcatOverlayEdge::Left)
        } else if k == 1 {
            Some(FcatOverlayEdge::Bottom)
        } else if k == 2 {
            Some(FcatOverlayEdge::Right)
        } else if k == 3 {
            Some(FcatOverlayEdge::Top)
        } else {
            None
        }
    }

    pub open spec fn from_name_spec(s: Seq<char>) -> Option<FcatOverlayEdge> {
        if seq_ieq(s, "left"@) {
            Some(FcatOverlayEdge::Left)
        } else if seq_ieq(s, "bottom"@) {
            Some(FcatOverlayEdge::Bottom)
        } else if seq_ieq(s, "right"@) {
            Some(FcatOverlayEdge::Right)
        } else if seq_ieq(s, "top"@) {
            Some(FcatOverlayEdge::Top)
        } else {
            None
        }
    }

    /// What an edge token decodes to: decimal ordinal or case-insensitive name.
    pub open spec fn from_text_spec(s: Seq<char>) -> Option<FcatOverlayEdge> {
        match sint_result(s, 0, 3) {
            Some(k) => Self::from_ord_spec(k as int),
            None => Self::from_name_spec(s),
        }
    }

    pub fn from_text(s: &str) -> (r: Option<FcatOverlayEdge>)
        ensures
            r == Self::from_text_spec(s@),
    {
        match parse_sint(s, 0, 3) {
            Some(k) => if k == 0 {
                Some(FcatOverlayEdge::Left)
            } else if k == 1 {
                Some(FcatOverlayEdge::Bottom)
            } else if k == 2 {
                Some(FcatOverlayEdge::Right)
            } else {
                Some(FcatOverlayEdge::Top)
            },
            None => if str_ieq(s, "left") {
                Some(FcatOverlayEdge::Left)
            } else if str_ieq(s, "bottom") {
                Some(FcatOverlayEdge::Bottom)
            } else if str_ieq(s, "right") {
                Some(FcatOverlayEdge::Right)
            } else if str_ieq(s, "top") {
                Some(FcatOverlayEdge::Top)
            } else {
                None
            },
        }
    }

    pub fn ordinal(self) -> (r: i64)
        ensures
            r == self.ord_of(),
    {
        match self {
            FcatOverlayEdge::Left => 0,
            FcatOverlayEdge::Bottom => 1,
            FcatOverlayEdge::Right => 2,
            FcatOverlayEdge::Top => 3,
        }
    }

    pub fn name(self) -> (r: &'static str)
        ensures
            r@ == self.name_of(),
    {
        match self {
            FcatOverlayEdge::Left => "left",
            FcatOverlayEdge::Bottom => "bottom",
            FcatOverlayEdge::Right => "right",
            FcatOverlayEdge::Top => "top",
        }
    }
}

/// Both textual encodings of an edge decode back to it.
pub proof fn lemma_fcat_overlay_edge_codec(v: FcatOverlayEdge)
    ensures
        FcatOverlayEdge::from_text_spec(v.ord_text_of()) == Some(v),
        FcatOverlayEdge::from_text_spec(v.name_of()) == Some(v),
{
    reveal_strlit("0");
    reveal_strlit("1");
    reveal_strlit("2");
    reveal_strlit("3");
    reveal_strlit("left");
    reveal_strlit("bottom");
    reveal_strlit("right");
    reveal_strlit("top");
    assert("0"@ =~= seq!['0']);
    assert("1"@ =~= seq!['1']);
    assert("2"@ =~= seq!['2']);
    assert("3"@ =~= seq!['3']);
    lemma_dec_digit('0');
    lemma_dec_digit('1');
    lemma_dec_digit('2');
    lemma_dec_digit('3');
    assert(!is_digit("left"@[0]));
    assert(!is_digit("bottom"@[0]));
    assert(!is_digit("right"@[0]));
    assert(!is_digit("top"@[0]));
}

} // verus!
