//! Keyword-valued layout properties, and their CSS keywords.
use vstd::prelude::*;
use crate::text::chars_of;

verus! {

/// Whether two strings hold the same characters.
pub fn str_eq(a: &str, b: &str) -> (r: bool)
    ensures
        r == (a@ == b@),
{
    let x = chars_of(a);
    let y = chars_of(b);
    if x.len() != y.len() {
        return false;
    }
    let mut i: usize = 0;
    while i < x.len()
        invariant
            x@ == a@,
            y@ == b@,
            i <= x@.len() == y@.len(),
            forall|j: int| 0 <= j < i ==> x@[j] == y@[j],
        decreases x@.len() - i,
    {
        if x[i] != y[i] {
            assert(x@[i as int] != y@[i as int]);
            return false;
        }
        i = i + 1;
    }
    assert(x@ =~= y@);
    true
}

/// How a node lays out its children.
#[derive(Debug, Clone, Copy, PartialEq, Eq, Structural)]
pub enum Display {
    Flex,
    Grid,
    Hidden,
}

impl Display {
    /// The CSS keyword of this value.
    pub open spec fn spec_keyword(self) -> Seq<char> {
        match self {
            Display::Flex => "flex"@,
            Display::Grid => "grid"@,
            Display::Hidden => "none"@,
        }
    }

    /// The value that a CSS keyword names.
    pub open spec fn spec_from_keyword(s: Seq<char>) -> Option<Self> {

        if s == "flex"@ {
            Some(Display::Flex)
        } else if s == "grid"@ {
            Some(Display::Grid)
        } else if s == "none"@ {
            Some(Display::Hidden)
        } else {
            None
        }
    }


    /// The CSS keyword of this value.
    pub fn keyword(&self) -> (r: &'static str)
        ensures
            r@ == self.spec_keyword(),
    {
        match self {
            Display::Flex => "flex",
            Display::Grid => "grid",
            Display::Hidden => "none",
        }
    }

    /// The value that a CSS keyword names, if any.
    pub fn from_keyword(s: &str) -> (r: Option<Self>)
        ensures
            r == Self::spec_from_keyword(s@),
    {

        if str_eq(s, "flex") {
            Some(Display::Flex)
        } else if str_eq(s, "grid") {
            Some(Display::Grid)
        } else if str_eq(s, "none") {
            Some(Display::Hidden)
        } else {
            None
        }
    }
}


/// Reading the keyword of a value gives the value back.
pub proof fn lemma_display_keyword_round_trip(v: Display)
    ensures
        Display::spec_from_keyword(v.spec_keyword()) == Some(v),
{
    reveal_strlit("flex");
    reveal_strlit("grid");
    reveal_strlit("none");
    assert("flex"@[0] != "grid"@[0]);
    assert("flex"@[0] != "none"@[0]);
    assert("grid"@[0] != "none"@[0]);
    match v {
        Display::Flex => {},
        Display::Grid => {},
        Display::Hidden => {},
    }
}

/// Whether a node is placed by layout or by its offsets.
#[derive(Debug, Clone, Copy, PartialEq, Eq, Structural)]
pub enum PositionType {
    Relative,
    Absolute,
}

impl PositionType {
    /// The CSS keyword of this value.
    pub open spec fn spec_keyword(self) -> Seq<char> {
        match self {
            PositionType::Relative => "relative"@,
            PositionType::Absolute => "absolute"@,
        }
    }

    /// The value that a CSS keyword names.
    pub open spec fn spec_from_keyword(s: Seq<char>) -> Option<Self> {

        if s == "relative"@ {
            Some(PositionType::Relative)
        } else if s == "absolute"@ {
            Some(PositionType::Absolute)
        } else {
            None
        }
    }


    /// The CSS keyword of this value.
    pub fn keyword(&self) -> (r: &'static str)
        ensures
            r@ == self.spec_keyword(),
    {
        match self {
            PositionType::Relative => "relative",
            PositionType::Absolute => "absolute",
        }
    }

    /// The value that a CSS keyword names, if any.
    pub fn from_keyword(s: &str) -> (r: Option<Self>)
        ensures
            r == Self::spec_from_keyword(s@),
    {

        if str_eq(s, "relative") {
            Some(PositionType::Relative)
        } else if str_eq(s, "absolute") {
            Some(PositionType::Absolute)
        } else {
            None
        }
    }
}


/// Reading the keyword of a value gives the value back.
pub proof fn lemma_position_type_keyword_round_trip(v: PositionType)
    ensures
        PositionType::spec_from_keyword(v.spec_keyword()) == Some(v),
{
    reveal_strlit("absolute");
    reveal_strlit("relative");
    assert("absolute"@[0] != "relative"@[0]);
    match v {
        PositionType::Relative => {},
        PositionType::Absolute => {},
    }
}

/// Whether content beyond a node's bounds is drawn, on one axis.
#[derive(Debug, Clone, Copy, PartialEq, Eq, Structural)]
pub enum OverflowAxis {
    Visible,
    Clip,
}

impl OverflowAxis {
    /// The CSS keyword of this value.
    pub open spec fn spec_keyword(self) -> Seq<char> {
        match self {
            OverflowAxis::Visible => "visible"@,
            OverflowAxis::Clip => "clip"@,
        }
    }

    /// The value that a CSS keyword names.
    pub open spec fn spec_from_keyword(s: Seq<char>) -> Option<Self> {

        if s == "visible"@ {
            Some(OverflowAxis::Visible)
        } else if s == "clip"@ {
            Some(OverflowAxis::Clip)
        } else {
            None
        }
    }


    /// The CSS keyword of this value.
    pub fn keyword(&self) -> (r: &'static str)
        ensures
            r@ == self.spec_keyword(),
    {
        match self {
            OverflowAxis::Visible => "visible",
            OverflowAxis::Clip => "clip",
        }
    }

    /// The value that a CSS keyword names, if any.
    pub fn from_keyword(s: &str) -> (r: Option<Self>)
        ensures
            r == Self::spec_from_keyword(s@),
    {

        if str_eq(s, "visible") {
            Some(OverflowAxis::Visible)
        } else if str_eq(s, "clip") {
            Some(OverflowAxis::Clip)
        } else {
            None
        }
    }
}


/// Reading the keyword of a value gives the value back.
pub proof fn lemma_overflow_axis_keyword_round_trip(v: OverflowAxis)
    ensures
        OverflowAxis::spec_from_keyword(v.spec_keyword()) == Some(v),
{
    reveal_strlit("clip");
    reveal_strlit("visible");
    assert("clip"@.len() != "visible"@.len());
    match v {
        OverflowAxis::Visible => {},
        OverflowAxis::Clip => {},
    }
}

/// The direction in which text flows.
#[derive(Debug, Clone, Copy, PartialEq, Eq, Structural)]
pub enum Direction {
    Inherit,
    LeftToRight,
    RightToLeft,
}

impl Direction {
    /// The CSS keyword of this value.
    pub open spec fn spec_keyword(self) -> Seq<char> {
        match self {
            Direction::Inherit => "inherit"@,
            Direction::LeftToRight => "ltr"@,
            Direction::RightToLeft => "rtl"@,
        }
    }

    /// The value that a CSS keyword names.
    pub open spec fn spec_from_keyword(s: Seq<char>) -> Option<Self> {

        if s == "inherit"@ {
            Some(Direction::Inherit)
        } else if s == "ltr"@ {
            Some(Direction::LeftToRight)
        } else if s == "rtl"@ {
            Some(Direction::RightToLeft)
        } else {
            None
        }
    }


    /// The CSS keyword of this value.
    pub fn keyword(&self) -> (r: &'static str)
        ensures
            r@ == self.spec_keyword(),
    {
        match self {
            Direction::Inherit => "inherit",
            Direction::LeftToRight => "ltr",
            Direction::RightToLeft => "rtl",
        }
    }

    /// The value that a CSS keyword names, if any.
    pub fn from_keyword(s: &str) -> (r: Option<Self>)
        ensures
            r == Self::spec_from_keyword(s@),
    {

        if str_eq(s, "inherit") {
            Some(Direction::Inherit)
        } else if str_eq(s, "ltr") {
            Some(Direction::LeftToRight)
        } else if str_eq(s, "rtl") {
            Some(Direction::RightToLeft)
        } else {
            None
        }
    }
}


/// Reading the keyword of a value gives the value back.
pub proof fn lemma_direction_keyword_round_trip(v: Direction)
    ensures
        Direction::spec_from_keyword(v.spec_keyword()) == Some(v),
{
    reveal_strlit("inherit");
    reveal_strlit("ltr");
    reveal_strlit("rtl");
    assert("inherit"@.len() != "ltr"@.len());
    assert("inherit"@.len() != "rtl"@.len());
    assert("ltr"@[0] != "rtl"@[0]);
    match v {
        Direction::Inherit => {},
        Direction::LeftToRight => {},
        Direction::RightToLeft => {},
    }
}

/// How children are aligned on the cross axis.
#[derive(Debug, Clone, Copy, PartialEq, Eq, Structural)]
pub enum AlignItems {
    Default,
    Start,
    End,
    FlexStart,
    FlexEnd,
    Center,
    Baseline,
    Stretch,
}

impl AlignItems {
    /// The CSS keyword of this value.
    pub open spec fn spec_keyword(self) -> Seq<char> {
        match self {
            AlignItems::Default => "default"@,
            AlignItems::Start => "start"@,
            AlignItems::End => "end"@,
            AlignItems::FlexStart => "flex-start"@,
            AlignItems::FlexEnd => "flex-end"@,
            AlignItems::Center => "center"@,
            AlignItems::Baseline => "baseline"@,
            AlignItems::Stretch => "stretch"@,
        }
    }

    /// The value that a CSS keyword names.
    pub open spec fn spec_from_keyword(s: Seq<char>) -> Option<Self> {

        if s == "default"@ {
            Some(AlignItems::Default)
        } else if s == "start"@ {
            Some(AlignItems::Start)
        } else if s == "end"@ {
            Some(AlignItems::End)
        } else if s == "flex-start"@ {
            Some(AlignItems::FlexStart)
        } else if s == "flex-end"@ {
            Some(AlignItems::FlexEnd)
        } else if s == "center"@ {
            Some(AlignItems::Center)
        } else if s == "baseline"@ {
            Some(AlignItems::Baseline)
        } else if s == "stretch"@ {
            Some(AlignItems::Stretch)
        } else {
            None
        }
    }


    /// The CSS keyword of this value.
    pub fn keyword(&self) -> (r: &'static str)
        ensures
            r@ == self.spec_keyword(),
    {
        match self {
            AlignItems::Default => "default",
            AlignItems::Start => "start",
            AlignItems::End => "end",
            AlignItems::FlexStart => "flex-start",
            AlignItems::FlexEnd => "flex-end",
            AlignItems::Center => "center",
            AlignItems::Baseline => "baseline",
            AlignItems::Stretch => "stretch",
        }
    }

    /// The value that a CSS keyword names, if any.
    pub fn from_keyword(s: &str) -> (r: Option<Self>)
        ensures
            r == Self::spec_from_keyword(s@),
    {

        if str_eq(s, "default") {
            Some(AlignItems::Default)
        } else if str_eq(s, "start") {
            Some(AlignItems::Start)
        } else if str_eq(s, "end") {
            Some(AlignItems::End)
        } else if str_eq(s, "flex-start") {
            Some(AlignItems::FlexStart)
        } else if str_eq(s, "flex-end") {
            Some(AlignItems::FlexEnd)
        } else if str_eq(s, "center") {
            Some(AlignItems::Center)
        } else if str_eq(s, "baseline") {
            Some(AlignItems::Baseline)
        } else if str_eq(s, "stretch") {
            Some(AlignItems::Stretch)
        } else {
            None
        }
    }
}


/// Reading the keyword of a value gives the value back.
pub proof fn lemma_align_items_keyword_round_trip(v: AlignItems)
    ensures
        AlignItems::spec_from_keyword(v.spec_keyword()) == Some(v),
{
    reveal_strlit("baseline");
    reveal_strlit("center");
    reveal_strlit("default");
    reveal_strlit("end");
    reveal_strlit("flex-end");
    reveal_strlit("flex-start");
    reveal_strlit("start");
    reveal_strlit("stretch");
    assert("baseline"@.len() != "center"@.len());
    assert("baseline"@.len() != "default"@.len());
    assert("baseline"@.len() != "end"@.len());
    assert("baseline"@.len() != "flex-start"@.len());
    assert("baseline"@.len() != "start"@.len());
    assert("baseline"@.len() != "stretch"@.len());
    assert("center"@.len() != "default"@.len());
    assert("center"@.len() != "end"@.len());
    assert("center"@.len() != "flex-end"@.len());
    assert("center"@.len() != "flex-start"@.len());
    assert("center"@.len() != "start"@.len());
    assert("center"@.len() != "stretch"@.len());
    assert("default"@.len() != "end"@.len());
    assert("default"@.len() != "flex-end"@.len());
    assert("default"@.len() != "flex-start"@.len());
    assert("default"@.len() != "start"@.len());
    assert("end"@.len() != "flex-end"@.len());
    assert("end"@.len() != "flex-start"@.len());
    assert("end"@.len() != "start"@.len());
    assert("end"@.len() != "stretch"@.len());
    assert("flex-end"@.len() != "flex-start"@.len());
    assert("flex-end"@.len() != "start"@.len());
    assert("flex-end"@.len() != "stretch"@.len());
    assert("flex-start"@.len() != "start"@.len());
    assert("flex-start"@.len() != "stretch"@.len());
    assert("start"@.len() != "stretch"@.len());
    assert("baseline"@[0] != "flex-end"@[0]);
    assert("default"@[0] != "stretch"@[0]);
    match v {
        AlignItems::Default => {},
        AlignItems::Start => {},
        AlignItems::End => {},
        AlignItems::FlexStart => {},
        AlignItems::FlexEnd => {},
        AlignItems::Center => {},
        AlignItems::Baseline => {},
        AlignItems::Stretch => {},
    }
}

/// How grid items are aligned on the inline axis.
#[derive(Debug, Clone, Copy, PartialEq, Eq, Structural)]
pub enum JustifyItems {
    Default,
    Start,
    End,
    Center,
    Baseline,
    Stretch,
}

impl JustifyItems {
    /// The CSS keyword of this value.
    pub open spec fn spec_keyword(self) -> Seq<char> {
        match self {
            JustifyItems::Default => "default"@,
            JustifyItems::Start => "start"@,
            JustifyItems::End => "end"@,
            JustifyItems::Center => "center"@,
            JustifyItems::Baseline => "baseline"@,
            JustifyItems::Stretch => "stretch"@,
        }
    }

    /// The value that a CSS keyword names.
    pub open spec fn spec_from_keyword(s: Seq<char>) -> Option<Self> {

        if s == "default"@ {
            Some(JustifyItems::Default)
        } else if s == "start"@ {
            Some(JustifyItems::Start)
        } else if s == "end"@ {
            Some(JustifyItems::End)
        } else if s == "center"@ {
            Some(JustifyItems::Center)
        } else if s == "baseline"@ {
            Some(JustifyItems::Baseline)
        } else if s == "stretch"@ {
            Some(JustifyItems::Stretch)
        } else {
            None
        }
    }


    /// The CSS keyword of this value.
    pub fn keyword(&self) -> (r: &'static str)
        ensures
            r@ == self.spec_keyword(),
    {
        match self {
            JustifyItems::Default => "default",
            JustifyItems::Start => "start",
            JustifyItems::End => "end",
            JustifyItems::Center => "center",
            JustifyItems::Baseline => "baseline",
            JustifyItems::Stretch => "stretch",
        }
    }

    /// The value that a CSS keyword names, if any.
    pub fn from_keyword(s: &str) -> (r: Option<Self>)
        ensures
            r == Self::spec_from_keyword(s@),
    {

        if str_eq(s, "default") {
            Some(JustifyItems::Default)
        } else if str_eq(s, "start") {
            Some(JustifyItems::Start)
        } else if str_eq(s, "end") {
            Some(JustifyItems::End)
        } else if str_eq(s, "center") {
            Some(JustifyItems::Center)
        } else if str_eq(s, "baseline") {
            Some(JustifyItems::Baseline)
        } else if str_eq(s, "stretch") {
            Some(JustifyItems::Stretch)
        } else {
            None
        }
    }
}


/// Reading the keyword of a value gives the value back.
pub proof fn lemma_justify_items_keyword_round_trip(v: JustifyItems)
    ensures
        JustifyItems::spec_from_keyword(v.spec_keyword()) == Some(v),
{
    reveal_strlit("baseline");
    reveal_strlit("center");
    reveal_strlit("default");
    reveal_strlit("end");
    reveal_strlit("start");
    reveal_strlit("stretch");
    assert("baseline"@.len() != "center"@.len());
    assert("baseline"@.len() != "default"@.len());
    assert("baseline"@.len() != "end"@.len());
    assert("baseline"@.len() != "start"@.len());
    assert("baseline"@.len() != "stretch"@.len());
    assert("center"@.len() != "default"@.len());
    assert("center"@.len() != "end"@.len());
    assert("center"@.len() != "start"@.len());
    assert("center"@.len() != "stretch"@.len());
    assert("default"@.len() != "end"@.len());
    assert("default"@.len() != "start"@.len());
    assert("end"@.len() != "start"@.len());
    assert("end"@.len() != "stretch"@.len());
    assert("start"@.len() != "stretch"@.len());
    assert("default"@[0] != "stretch"@[0]);
    match v {
        JustifyItems::Default => {},
        JustifyItems::Start => {},
        JustifyItems::End => {},
        JustifyItems::Center => {},
        JustifyItems::Baseline => {},
        JustifyItems::Stretch => {},
    }
}

/// How a node is aligned on its parent's cross axis.
#[derive(Debug, Clone, Copy, PartialEq, Eq, Structural)]
pub enum AlignSelf {
    Auto,
    Start,
    End,
    FlexStart,
    FlexEnd,
    Center,
    Baseline,
    Stretch,
}

impl AlignSelf {
    /// The CSS keyword of this value.
    pub open spec fn spec_keyword(self) -> Seq<char> {
        match self {
            AlignSelf::Auto => "auto"@,
            AlignSelf::Start => "start"@,
            AlignSelf::End => "end"@,
            AlignSelf::FlexStart => "flex-start"@,
            AlignSelf::FlexEnd => "flex-end"@,
            AlignSelf::Center => "center"@,
            AlignSelf::Baseline => "baseline"@,
            AlignSelf::Stretch => "stretch"@,
        }
    }

    /// The value that a CSS keyword names.
    pub open spec fn spec_from_keyword(s: Seq<char>) -> Option<Self> {

        if s == "auto"@ {
            Some(AlignSelf::Auto)
        } else if s == "start"@ {
            Some(AlignSelf::Start)
        } else if s == "end"@ {
            Some(AlignSelf::End)
        } else if s == "flex-start"@ {
            Some(AlignSelf::FlexStart)
        } else if s == "flex-end"@ {
            Some(AlignSelf::FlexEnd)
        } else if s == "center"@ {
            Some(AlignSelf::Center)
        } else if s == "baseline"@ {
            Some(AlignSelf::Baseline)
        } else if s == "stretch"@ {
            Some(AlignSelf::Stretch)
        } else {
            None
        }
    }


    /// The CSS keyword of this value.
    pub fn keyword(&self) -> (r: &'static str)
        ensures
            r@ == self.spec_keyword(),
    {
        match self {
            AlignSelf::Auto => "auto",
            AlignSelf::Start => "start",
            AlignSelf::End => "end",
            AlignSelf::FlexStart => "flex-start",
            AlignSelf::FlexEnd => "flex-end",
            AlignSelf::Center => "center",
            AlignSelf::Baseline => "baseline",
            AlignSelf::Stretch => "stretch",
        }
    }

    /// The value that a CSS keyword names, if any.
    pub fn from_keyword(s: &str) -> (r: Option<Self>)
        ensures
            r == Self::spec_from_keyword(s@),
    {

        if str_eq(s, "auto") {
            Some(AlignSelf::Auto)
        } else if str_eq(s, "start") {
            Some(AlignSelf::Start)
        } else if str_eq(s, "end") {
            Some(AlignSelf::End)
        } else if str_eq(s, "flex-start") {
            Some(AlignSelf::FlexStart)
        } else if str_eq(s, "flex-end") {
            Some(AlignSelf::FlexEnd)
        } else if str_eq(s, "center") {
            Some(AlignSelf::Center)
        } else if str_eq(s, "baseline") {
            Some(AlignSelf::Baseline)
        } else if str_eq(s, "stretch") {
            Some(AlignSelf::Stretch)
        } else {
            None
        }
    }
}


/// Reading the keyword of a value gives the value back.
pub proof fn lemma_align_self_keyword_round_trip(v: AlignSelf)
    ensures
        AlignSelf::spec_from_keyword(v.spec_keyword()) == Some(v),
{
    reveal_strlit("auto");
    reveal_strlit("baseline");
    reveal_strlit("center");
    reveal_strlit("end");
    reveal_strlit("flex-end");
    reveal_strlit("flex-start");
    reveal_strlit("start");
    reveal_strlit("stretch");
    assert("auto"@.len() != "baseline"@.len());
    assert("auto"@.len() != "center"@.len());
    assert("auto"@.len() != "end"@.len());
    assert("auto"@.len() != "flex-end"@.len());
    assert("auto"@.len() != "flex-start"@.len());
    assert("auto"@.len() != "start"@.len());
    assert("auto"@.len() != "stretch"@.len());
    assert("baseline"@.len() != "center"@.len());
    assert("baseline"@.len() != "end"@.len());
    assert("baseline"@.len() != "flex-start"@.len());
    assert("baseline"@.len() != "start"@.len());
    assert("baseline"@.len() != "stretch"@.len());
    assert("center"@.len() != "end"@.len());
    assert("center"@.len() != "flex-end"@.len());
    assert("center"@.len() != "flex-start"@.len());
    assert("center"@.len() != "start"@.len());
    assert("center"@.len() != "stretch"@.len());
    assert("end"@.len() != "flex-end"@.len());
    assert("end"@.len() != "flex-start"@.len());
    assert("end"@.len() != "start"@.len());
    assert("end"@.len() != "stretch"@.len());
    assert("flex-end"@.len() != "flex-start"@.len());
    assert("flex-end"@.len() != "start"@.len());
    assert("flex-end"@.len() != "stretch"@.len());
    assert("flex-start"@.len() != "start"@.len());
    assert("flex-start"@.len() != "stretch"@.len());
    assert("start"@.len() != "stretch"@.len());
    assert("baseline"@[0] != "flex-end"@[0]);
    match v {
        AlignSelf::Auto => {},
        AlignSelf::Start => {},
        AlignSelf::End => {},
        AlignSelf::FlexStart => {},
        AlignSelf::FlexEnd => {},
        AlignSelf::Center => {},
        AlignSelf::Baseline => {},
        AlignSelf::Stretch => {},
    }
}

/// How a grid item is aligned on the inline axis.
#[derive(Debug, Clone, Copy, PartialEq, Eq, Structural)]
pub enum JustifySelf {
    Auto,
    Start,
    End,
    Center,
    Baseline,
    Stretch,
}

impl JustifySelf {
    /// The CSS keyword of this value.
    pub open spec fn spec_keyword(self) -> Seq<char> {
        match self {
            JustifySelf::Auto => "auto"@,
            JustifySelf::Start => "start"@,
            JustifySelf::End => "end"@,
            JustifySelf::Center => "center"@,
            JustifySelf::Baseline => "baseline"@,
            JustifySelf::Stretch => "stretch"@,
        }
    }

    /// The value that a CSS keyword names.
    pub open spec fn spec_from_keyword(s: Seq<char>) -> Option<Self> {

        if s == "auto"@ {
            Some(JustifySelf::Auto)
        } else if s == "start"@ {
            Some(JustifySelf::Start)
        } else if s == "end"@ {
            Some(JustifySelf::End)
        } else if s == "center"@ {
            Some(JustifySelf::Center)
        } else if s == "baseline"@ {
            Some(JustifySelf::Baseline)
        } else if s == "stretch"@ {
            Some(JustifySelf::Stretch)
        } else {
            None
        }
    }


    /// The CSS keyword of this value.
    pub fn keyword(&self) -> (r: &'static str)
        ensures
            r@ == self.spec_keyword(),
    {
        match self {
            JustifySelf::Auto => "auto",
            JustifySelf::Start => "start",
            JustifySelf::End => "end",
            JustifySelf::Center => "center",
            JustifySelf::Baseline => "baseline",
            JustifySelf::Stretch => "stretch",
        }
    }

    /// The value that a CSS keyword names, if any.
    pub fn from_keyword(s: &str) -> (r: Option<Self>)
        ensures
            r == Self::spec_from_keyword(s@),
    {

        if str_eq(s, "auto") {
            Some(JustifySelf::Auto)
        } else if str_eq(s, "start") {
            Some(JustifySelf::Start)
        } else if str_eq(s, "end") {
            Some(JustifySelf::End)
        } else if str_eq(s, "center") {
            Some(JustifySelf::Center)
        } else if str_eq(s, "baseline") {
            Some(JustifySelf::Baseline)
        } else if str_eq(s, "stretch") {
            Some(JustifySelf::Stretch)
        } else {
            None
        }
    }
}


/// Reading the keyword of a value gives the value back.
pub proof fn lemma_justify_self_keyword_round_trip(v: JustifySelf)
    ensures
        JustifySelf::spec_from_keyword(v.spec_keyword()) == Some(v),
{
    reveal_strlit("auto");
    reveal_strlit("baseline");
    reveal_strlit("center");
    reveal_strlit("end");
    reveal_strlit("start");
    reveal_strlit("stretch");
    assert("auto"@.len() != "baseline"@.len());
    assert("auto"@.len() != "center"@.len());
    assert("auto"@.len() != "end"@.len());
    assert("auto"@.len() != "start"@.len());
    assert("auto"@.len() != "stretch"@.len());
    assert("baseline"@.len() != "center"@.len());
    assert("baseline"@.len() != "end"@.len());
    assert("baseline"@.len() != "start"@.len());
    assert("baseline"@.len() != "stretch"@.len());
    assert("center"@.len() != "end"@.len());
    assert("center"@.len() != "start"@.len());
    assert("center"@.len() != "stretch"@.len());
    assert("end"@.len() != "start"@.len());
    assert("end"@.len() != "stretch"@.len());
    assert("start"@.len() != "stretch"@.len());
    match v {
        JustifySelf::Auto => {},
        JustifySelf::Start => {},
        JustifySelf::End => {},
        JustifySelf::Center => {},
        JustifySelf::Baseline => {},
        JustifySelf::Stretch => {},
    }
}

/// How lines of children are distributed on the cross axis.
#[derive(Debug, Clone, Copy, PartialEq, Eq, Structural)]
pub enum AlignContent {
    Default,
    Start,
    End,
    FlexStart,
    FlexEnd,
    Center,
    Stretch,
    SpaceBetween,
    SpaceEvenly,
    SpaceAround,
}

impl AlignContent {
    /// The CSS keyword of this value.
    pub open spec fn spec_keyword(self) -> Seq<char> {
        match self {
            AlignContent::Default => "default"@,
            AlignContent::Start => "start"@,
            AlignContent::End => "end"@,
            AlignContent::FlexStart => "flex-start"@,
            AlignContent::FlexEnd => "flex-end"@,
            AlignContent::Center => "center"@,
            AlignContent::Stretch => "stretch"@,
            AlignContent::SpaceBetween => "space-between"@,
            AlignContent::SpaceEvenly => "space-evenly"@,
            AlignContent::SpaceAround => "space-around"@,
        }
    }

    /// The value that a CSS keyword names.
    pub open spec fn spec_from_keyword(s: Seq<char>) -> Option<Self> {

        if s == "default"@ {
            Some(AlignContent::Default)
        } else if s == "start"@ {
            Some(AlignContent::Start)
        } else if s == "end"@ {
            Some(AlignContent::End)
        } else if s == "flex-start"@ {
            Some(AlignContent::FlexStart)
        } else if s == "flex-end"@ {
            Some(AlignContent::FlexEnd)
        } else if s == "center"@ {
            Some(AlignContent::Center)
        } else if s == "stretch"@ {
            Some(AlignContent::Stretch)
        } else if s == "space-between"@ {
            Some(AlignContent::SpaceBetween)
        } else if s == "space-evenly"@ {
            Some(AlignContent::SpaceEvenly)
        } else if s == "space-around"@ {
            Some(AlignContent::SpaceAround)
        } else {
            None
        }
    }


    /// The CSS keyword of this value.
    pub fn keyword(&self) -> (r: &'static str)
        ensures
            r@ == self.spec_keyword(),
    {
        match self {
            AlignContent::Default => "default",
            AlignContent::Start => "start",
            AlignContent::End => "end",
            AlignContent::FlexStart => "flex-start",
            AlignContent::FlexEnd => "flex-end",
            AlignContent::Center => "center",
            AlignContent::Stretch => "stretch",
            AlignContent::SpaceBetween => "space-between",
            AlignContent::SpaceEvenly => "space-evenly",
            AlignContent::SpaceAround => "space-around",
        }
    }

    /// The value that a CSS keyword names, if any.
    pub fn from_keyword(s: &str) -> (r: Option<Self>)
        ensures
            r == Self::spec_from_keyword(s@),
    {

        if str_eq(s, "default") {
            Some(AlignContent::Default)
        } else if str_eq(s, "start") {
            Some(AlignContent::Start)
        } else if str_eq(s, "end") {
            Some(AlignContent::End)
        } else if str_eq(s, "flex-start") {
            Some(AlignContent::FlexStart)
        } else if str_eq(s, "flex-end") {
            Some(AlignContent::FlexEnd)
        } else if str_eq(s, "center") {
            Some(AlignContent::Center)
        } else if str_eq(s, "stretch") {
            Some(AlignContent::Stretch)
        } else if str_eq(s, "space-between") {
            Some(AlignContent::SpaceBetween)
        } else if str_eq(s, "space-evenly") {
            Some(AlignContent::SpaceEvenly)
        } else if str_eq(s, "space-around") {
            Some(AlignContent::SpaceAround)
        } else {
            None
        }
    }
}


/// Reading the keyword of a value gives the value back.
pub proof fn lemma_align_content_keyword_round_trip(v: AlignContent)
    ensures
        AlignContent::spec_from_keyword(v.spec_keyword()) == Some(v),
{
    reveal_strlit("center");
    reveal_strlit("default");
    reveal_strlit("end");
    reveal_strlit("flex-end");
    reveal_strlit("flex-start");
    reveal_strlit("space-around");
    reveal_strlit("space-between");
    reveal_strlit("space-evenly");
    reveal_strlit("start");
    reveal_strlit("stretch");
    assert("center"@.len() != "default"@.len());
    assert("center"@.len() != "end"@.len());
    assert("center"@.len() != "flex-end"@.len());
    assert("center"@.len() != "flex-start"@.len());
    assert("center"@.len() != "space-around"@.len());
    assert("center"@.len() != "space-between"@.len());
    assert("center"@.len() != "space-evenly"@.len());
    assert("center"@.len() != "start"@.len());
    assert("center"@.len() != "stretch"@.len());
    assert("default"@.len() != "end"@.len());
    assert("default"@.len() != "flex-end"@.len());
    assert("default"@.len() != "flex-start"@.len());
    assert("default"@.len() != "space-around"@.len());
    assert("default"@.len() != "space-between"@.len());
    assert("default"@.len() != "space-evenly"@.len());
    assert("default"@.len() != "start"@.len());
    assert("end"@.len() != "flex-end"@.len());
    assert("end"@.len() != "flex-start"@.len());
    assert("end"@.len() != "space-around"@.len());
    assert("end"@.len() != "space-between"@.len());
    assert("end"@.len() != "space-evenly"@.len());
    assert("end"@.len() != "start"@.len());
    assert("end"@.len() != "stretch"@.len());
    assert("flex-end"@.len() != "flex-start"@.len());
    assert("flex-end"@.len() != "space-around"@.len());
    assert("flex-end"@.len() != "space-between"@.len());
    assert("flex-end"@.len() != "space-evenly"@.len());
    assert("flex-end"@.len() != "start"@.len());
    assert("flex-end"@.len() != "stretch"@.len());
    assert("flex-start"@.len() != "space-around"@.len());
    assert("flex-start"@.len() != "space-between"@.len());
    assert("flex-start"@.len() != "space-evenly"@.len());
    assert("flex-start"@.len() != "start"@.len());
    assert("flex-start"@.len() != "stretch"@.len());
    assert("space-around"@.len() != "space-between"@.len());
    assert("space-around"@.len() != "start"@.len());
    assert("space-around"@.len() != "stretch"@.len());
    assert("space-between"@.len() != "space-evenly"@.len());
    assert("space-between"@.len() != "start"@.len());
    assert("space-between"@.len() != "stretch"@.len());
    assert("space-evenly"@.len() != "start"@.len());
    assert("space-evenly"@.len() != "stretch"@.len());
    assert("start"@.len() != "stretch"@.len());
    assert("default"@[0] != "stretch"@[0]);
    assert("space-around"@[6] != "space-evenly"@[6]);
    match v {
        AlignContent::Default => {},
        AlignContent::Start => {},
        AlignContent::End => {},
        AlignContent::FlexStart => {},
        AlignContent::FlexEnd => {},
        AlignContent::Center => {},
        AlignContent::Stretch => {},
        AlignContent::SpaceBetween => {},
        AlignContent::SpaceEvenly => {},
        AlignContent::SpaceAround => {},
    }
}

/// How children are distributed on the main axis.
#[derive(Debug, Clone, Copy, PartialEq, Eq, Structural)]
pub enum JustifyContent {
    Default,
    Start,
    End,
    FlexStart,
    FlexEnd,
    Center,
    SpaceBetween,
    SpaceEvenly,
    SpaceAround,
}

impl JustifyContent {
    /// The CSS keyword of this value.
    pub open spec fn spec_keyword(self) -> Seq<char> {
        match self {
            JustifyContent::Default => "default"@,
            JustifyContent::Start => "start"@,
            JustifyContent::End => "end"@,
            JustifyContent::FlexStart => "flex-start"@,
            JustifyContent::FlexEnd => "flex-end"@,
            JustifyContent::Center => "center"@,
            JustifyContent::SpaceBetween => "space-between"@,
            JustifyContent::SpaceEvenly => "space-evenly"@,
            JustifyContent::SpaceAround => "space-around"@,
        }
    }

    /// The value that a CSS keyword names.
    pub open spec fn spec_from_keyword(s: Seq<char>) -> Option<Self> {

        if s == "default"@ {
            Some(JustifyContent::Default)
        } else if s == "start"@ {
            Some(JustifyContent::Start)
        } else if s == "end"@ {
            Some(JustifyContent::End)
        } else if s == "flex-start"@ {
            Some(JustifyContent::FlexStart)
        } else if s == "flex-end"@ {
            Some(JustifyContent::FlexEnd)
        } else if s == "center"@ {
            Some(JustifyContent::Center)
        } else if s == "space-between"@ {
            Some(JustifyContent::SpaceBetween)
        } else if s == "space-evenly"@ {
            Some(JustifyContent::SpaceEvenly)
        } else if s == "space-around"@ {
            Some(JustifyContent::SpaceAround)
        } else {
            None
        }
    }


    /// The CSS keyword of this value.
    pub fn keyword(&self) -> (r: &'static str)
        ensures
            r@ == self.spec_keyword(),
    {
        match self {
            JustifyContent::Default => "default",
            JustifyContent::Start => "start",
            JustifyContent::End => "end",
            JustifyContent::FlexStart => "flex-start",
            JustifyContent::FlexEnd => "flex-end",
            JustifyContent::Center => "center",
            JustifyContent::SpaceBetween => "space-between",
            JustifyContent::SpaceEvenly => "space-evenly",
            JustifyContent::SpaceAround => "space-around",
        }
    }

    /// The value that a CSS keyword names, if any.
    pub fn from_keyword(s: &str) -> (r: Option<Self>)
        ensures
            r == Self::spec_from_keyword(s@),
    {

        if str_eq(s, "default") {
            Some(JustifyContent::Default)
        } else if str_eq(s, "start") {
            Some(JustifyContent::Start)
        } else if str_eq(s, "end") {
            Some(JustifyContent::End)
        } else if str_eq(s, "flex-start") {
            Some(JustifyContent::FlexStart)
        } else if str_eq(s, "flex-end") {
            Some(JustifyContent::FlexEnd)
        } else if str_eq(s, "center") {
            Some(JustifyContent::Center)
        } else if str_eq(s, "space-between") {
            Some(JustifyContent::SpaceBetween)
        } else if str_eq(s, "space-evenly") {
            Some(JustifyContent::SpaceEvenly)
        } else if str_eq(s, "space-around") {
            Some(JustifyContent::SpaceAround)
        } else {
            None
        }
    }
}


/// Reading the keyword of a value gives the value back.
pub proof fn lemma_justify_content_keyword_round_trip(v: JustifyContent)
    ensures
        JustifyContent::spec_from_keyword(v.spec_keyword()) == Some(v),
{
    reveal_strlit("center");
    reveal_strlit("default");
    reveal_strlit("end");
    reveal_strlit("flex-end");
    reveal_strlit("flex-start");
    reveal_strlit("space-around");
    reveal_strlit("space-between");
    reveal_strlit("space-evenly");
    reveal_strlit("start");
    assert("center"@.len() != "default"@.len());
    assert("center"@.len() != "end"@.len());
    assert("center"@.len() != "flex-end"@.len());
    assert("center"@.len() != "flex-start"@.len());
    assert("center"@.len() != "space-around"@.len());
    assert("center"@.len() != "space-between"@.len());
    assert("center"@.len() != "space-evenly"@.len());
    assert("center"@.len() != "start"@.len());
    assert("default"@.len() != "end"@.len());
    assert("default"@.len() != "flex-end"@.len());
    assert("default"@.len() != "flex-start"@.len());
    assert("default"@.len() != "space-around"@.len());
    assert("default"@.len() != "space-between"@.len());
    assert("default"@.len() != "space-evenly"@.len());
    assert("default"@.len() != "start"@.len());
    assert("end"@.len() != "flex-end"@.len());
    assert("end"@.len() != "flex-start"@.len());
    assert("end"@.len() != "space-around"@.len());
    assert("end"@.len() != "space-between"@.len());
    assert("end"@.len() != "space-evenly"@.len());
    assert("end"@.len() != "start"@.len());
    assert("flex-end"@.len() != "flex-start"@.len());
    assert("flex-end"@.len() != "space-around"@.len());
    assert("flex-end"@.len() != "space-between"@.len());
    assert("flex-end"@.len() != "space-evenly"@.len());
    assert("flex-end"@.len() != "start"@.len());
    assert("flex-start"@.len() != "space-around"@.len());
    assert("flex-start"@.len() != "space-between"@.len());
    assert("flex-start"@.len() != "space-evenly"@.len());
    assert("flex-start"@.len() != "start"@.len());
    assert("space-around"@.len() != "space-between"@.len());
    assert("space-around"@.len() != "start"@.len());
    assert("space-between"@.len() != "space-evenly"@.len());
    assert("space-between"@.len() != "start"@.len());
    assert("space-evenly"@.len() != "start"@.len());
    assert("space-around"@[6] != "space-evenly"@[6]);
    match v {
        JustifyContent::Default => {},
        JustifyContent::Start => {},
        JustifyContent::End => {},
        JustifyContent::FlexStart => {},
        JustifyContent::FlexEnd => {},
        JustifyContent::Center => {},
        JustifyContent::SpaceBetween => {},
        JustifyContent::SpaceEvenly => {},
        JustifyContent::SpaceAround => {},
    }
}

/// The main axis of a flex container.
#[derive(Debug, Clone, Copy, PartialEq, Eq, Structural)]
pub enum FlexDirection {
    Row,
    Column,
    RowReverse,
    ColumnReverse,
}

impl FlexDirection {
    /// The CSS keyword of this value.
    pub open spec fn spec_keyword(self) -> Seq<char> {
        match self {
            FlexDirection::Row => "row"@,
            FlexDirection::Column => "column"@,
            FlexDirection::RowReverse => "row-reverse"@,
            FlexDirection::ColumnReverse => "column-reverse"@,
        }
    }

    /// The value that a CSS keyword names.
    pub open spec fn spec_from_keyword(s: Seq<char>) -> Option<Self> {

        if s == "row"@ {
            Some(FlexDirection::Row)
        } else if s == "column"@ {
            Some(FlexDirection::Column)
        } else if s == "row-reverse"@ {
            Some(FlexDirection::RowReverse)
        } else if s == "column-reverse"@ {
            Some(FlexDirection::ColumnReverse)
        } else {
            None
        }
    }


    /// The CSS keyword of this value.
    pub fn keyword(&self) -> (r: &'static str)
        ensures
            r@ == self.spec_keyword(),
    {
        match self {
            FlexDirection::Row => "row",
            FlexDirection::Column => "column",
            FlexDirection::RowReverse => "row-reverse",
            FlexDirection::ColumnReverse => "column-reverse",
        }
    }

    /// The value that a CSS keyword names, if any.
    pub fn from_keyword(s: &str) -> (r: Option<Self>)
        ensures
            r == Self::spec_from_keyword(s@),
    {

        if str_eq(s, "row") {
            Some(FlexDirection::Row)
        } else if str_eq(s, "column") {
            Some(FlexDirection::Column)
        } else if str_eq(s, "row-reverse") {
            Some(FlexDirection::RowReverse)
        } else if str_eq(s, "column-reverse") {
            Some(FlexDirection::ColumnReverse)
        } else {
            None
        }
    }
}


/// Reading the keyword of a value gives the value back.
pub proof fn lemma_flex_direction_keyword_round_trip(v: FlexDirection)
    ensures
        FlexDirection::spec_from_keyword(v.spec_keyword()) == Some(v),
{
    reveal_strlit("column");
    reveal_strlit("column-reverse");
    reveal_strlit("row");
    reveal_strlit("row-reverse");
    assert("column"@.len() != "column-reverse"@.len());
    assert("column"@.len() != "row"@.len());
    assert("column"@.len() != "row-reverse"@.len());
    assert("column-reverse"@.len() != "row"@.len());
    assert("column-reverse"@.len() != "row-reverse"@.len());
    assert("row"@.len() != "row-reverse"@.len());
    match v {
        FlexDirection::Row => {},
        FlexDirection::Column => {},
        FlexDirection::RowReverse => {},
        FlexDirection::ColumnReverse => {},
    }
}

/// Whether flex children wrap onto several lines.
#[derive(Debug, Clone, Copy, PartialEq, Eq, Structural)]
pub enum FlexWrap {
    NoWrap,
    Wrap,
    WrapReverse,
}

impl FlexWrap {
    /// The CSS keyword of this value.
    pub open spec fn spec_keyword(self) -> Seq<char> {
        match self {
            FlexWrap::NoWrap => "nowrap"@,
            FlexWrap::Wrap => "wrap"@,
            FlexWrap::WrapReverse => "wrap-reverse"@,
        }
    }

    /// The value that a CSS keyword names.
    pub open spec fn spec_from_keyword(s: Seq<char>) -> Option<Self> {

        if s == "nowrap"@ {
            Some(FlexWrap::NoWrap)
        } else if s == "wrap"@ {
            Some(FlexWrap::Wrap)
        } else if s == "wrap-reverse"@ {
            Some(FlexWrap::WrapReverse)
        } else {
            None
        }
    }


    /// The CSS keyword of this value.
    pub fn keyword(&self) -> (r: &'static str)
        ensures
            r@ == self.spec_keyword(),
    {
        match self {
            FlexWrap::NoWrap => "nowrap",
            FlexWrap::Wrap => "wrap",
            FlexWrap::WrapReverse => "wrap-reverse",
        }
    }

    /// The value that a CSS keyword names, if any.
    pub fn from_keyword(s: &str) -> (r: Option<Self>)
        ensures
            r == Self::spec_from_keyword(s@),
    {

        if str_eq(s, "nowrap") {
            Some(FlexWrap::NoWrap)
        } else if str_eq(s, "wrap") {
            Some(FlexWrap::Wrap)
        } else if str_eq(s, "wrap-reverse") {
            Some(FlexWrap::WrapReverse)
        } else {
            None
        }
    }
}


/// Reading the keyword of a value gives the value back.
pub proof fn lemma_flex_wrap_keyword_round_trip(v: FlexWrap)
    ensures
        FlexWrap::spec_from_keyword(v.spec_keyword()) == Some(v),
{
    reveal_strlit("nowrap");
    reveal_strlit("wrap");
    reveal_strlit("wrap-reverse");
    assert("nowrap"@.len() != "wrap"@.len());
    assert("nowrap"@.len() != "wrap-reverse"@.len());
    assert("wrap"@.len() != "wrap-reverse"@.len());
    match v {
        FlexWrap::NoWrap => {},
        FlexWrap::Wrap => {},
        FlexWrap::WrapReverse => {},
    }
}

/// How grid items without a placement are placed.
#[derive(Debug, Clone, Copy, PartialEq, Eq, Structural)]
pub enum GridAutoFlow {
    Row,
    Column,
    RowDense,
    ColumnDense,
}

impl GridAutoFlow {
    /// The CSS keyword of this value.
    pub open spec fn spec_keyword(self) -> Seq<char> {
        match self {
            GridAutoFlow::Row => "row"@,
            GridAutoFlow::Column => "column"@,
            GridAutoFlow::RowDense => "row-dense"@,
            GridAutoFlow::ColumnDense => "column-dense"@,
        }
    }

    /// The value that a CSS keyword names.
    pub open spec fn spec_from_keyword(s: Seq<char>) -> Option<Self> {

        if s == "row"@ {
            Some(GridAutoFlow::Row)
        } else if s == "column"@ {
            Some(GridAutoFlow::Column)
        } else if s == "row-dense"@ {
            Some(GridAutoFlow::RowDense)
        } else if s == "column-dense"@ {
            Some(GridAutoFlow::ColumnDense)
        } else {
            None
        }
    }


    /// The CSS keyword of this value.
    pub fn keyword(&self) -> (r: &'static str)
        ensures
            r@ == self.spec_keyword(),
    {
        match self {
            GridAutoFlow::Row => "row",
            GridAutoFlow::Column => "column",
            GridAutoFlow::RowDense => "row-dense",
            GridAutoFlow::ColumnDense => "column-dense",
        }
    }

    /// The value that a CSS keyword names, if any.
    pub fn from_keyword(s: &str) -> (r: Option<Self>)
        ensures
            r == Self::spec_from_keyword(s@),
    {

        if str_eq(s, "row") {
            Some(GridAutoFlow::Row)
        } else if str_eq(s, "column") {
            Some(GridAutoFlow::Column)
        } else if str_eq(s, "row-dense") {
            Some(GridAutoFlow::RowDense)
        } else if str_eq(s, "column-dense") {
            Some(GridAutoFlow::ColumnDense)
        } else {
            None
        }
    }
}


/// Reading the keyword of a value gives the value back.
pub proof fn lemma_grid_auto_flow_keyword_round_trip(v: GridAutoFlow)
    ensures
        GridAutoFlow::spec_from_keyword(v.spec_keyword()) == Some(v),
{
    reveal_strlit("column");
    reveal_strlit("column-dense");
    reveal_strlit("row");
    reveal_strlit("row-dense");
    assert("column"@.len() != "column-dense"@.len());
    assert("column"@.len() != "row"@.len());
    assert("column"@.len() != "row-dense"@.len());
    assert("column-dense"@.len() != "row"@.len());
    assert("column-dense"@.len() != "row-dense"@.len());
    assert("row"@.len() != "row-dense"@.len());
    match v {
        GridAutoFlow::Row => {},
        GridAutoFlow::Column => {},
        GridAutoFlow::RowDense => {},
        GridAutoFlow::ColumnDense => {},
    }
}


/// Each Display value has its own CSS keyword, and each keyword names that
/// value.
pub proof fn lemma_display_keyword_table()
    ensures
        Display::Flex.spec_keyword() == "flex"@,
        Display::spec_from_keyword("flex"@) == Some(Display::Flex),
        Display::Grid.spec_keyword() == "grid"@,
        Display::spec_from_keyword("grid"@) == Some(Display::Grid),
        Display::Hidden.spec_keyword() == "none"@,
        Display::spec_from_keyword("none"@) == Some(Display::Hidden),
{
    lemma_display_keyword_round_trip(Display::Flex);
    lemma_display_keyword_round_trip(Display::Grid);
    lemma_display_keyword_round_trip(Display::Hidden);
}

/// Each PositionType value has its own CSS keyword, and each keyword names that
/// value.
pub proof fn lemma_position_type_keyword_table()
    ensures
        PositionType::Relative.spec_keyword() == "relative"@,
        PositionType::spec_from_keyword("relative"@) == Some(PositionType::Relative),
        PositionType::Absolute.spec_keyword() == "absolute"@,
        PositionType::spec_from_keyword("absolute"@) == Some(PositionType::Absolute),
{
    lemma_position_type_keyword_round_trip(PositionType::Relative);
    lemma_position_type_keyword_round_trip(PositionType::Absolute);
}

/// Each OverflowAxis value has its own CSS keyword, and each keyword names that
/// value.
pub proof fn lemma_overflow_axis_keyword_table()
    ensures
        OverflowAxis::Visible.spec_keyword() == "visible"@,
        OverflowAxis::spec_from_keyword("visible"@) == Some(OverflowAxis::Visible),
        OverflowAxis::Clip.spec_keyword() == "clip"@,
        OverflowAxis::spec_from_keyword("clip"@) == Some(OverflowAxis::Clip),
{
    lemma_overflow_axis_keyword_round_trip(OverflowAxis::Visible);
    lemma_overflow_axis_keyword_round_trip(OverflowAxis::Clip);
}

/// Each Direction value has its own CSS keyword, and each keyword names that
/// value.
pub proof fn lemma_direction_keyword_table()
    ensures
        Direction::Inherit.spec_keyword() == "inherit"@,
        Direction::spec_from_keyword("inherit"@) == Some(Direction::Inherit),
        Direction::LeftToRight.spec_keyword() == "ltr"@,
        Direction::spec_from_keyword("ltr"@) == Some(Direction::LeftToRight),
        Direction::RightToLeft.spec_keyword() == "rtl"@,
        Direction::spec_from_keyword("rtl"@) == Some(Direction::RightToLeft),
{
    lemma_direction_keyword_round_trip(Direction::Inherit);
    lemma_direction_keyword_round_trip(Direction::LeftToRight);
    lemma_direction_keyword_round_trip(Direction::RightToLeft);
}

/// Each AlignItems value has its own CSS keyword, and each keyword names that
/// value.
pub proof fn lemma_align_items_keyword_table()
    ensures
        AlignItems::Default.spec_keyword() == "default"@,
        AlignItems::spec_from_keyword("default"@) == Some(AlignItems::Default),
        AlignItems::Start.spec_keyword() == "start"@,
        AlignItems::spec_from_keyword("start"@) == Some(AlignItems::Start),
        AlignItems::End.spec_keyword() == "end"@,
        AlignItems::spec_from_keyword("end"@) == Some(AlignItems::End),
        AlignItems::FlexStart.spec_keyword() == "flex-start"@,
        AlignItems::spec_from_keyword("flex-start"@) == Some(AlignItems::FlexStart),
        AlignItems::FlexEnd.spec_keyword() == "flex-end"@,
        AlignItems::spec_from_keyword("flex-end"@) == Some(AlignItems::FlexEnd),
        AlignItems::Center.spec_keyword() == "center"@,
        AlignItems::spec_from_keyword("center"@) == Some(AlignItems::Center),
        AlignItems::Baseline.spec_keyword() == "baseline"@,
        AlignItems::spec_from_keyword("baseline"@) == Some(AlignItems::Baseline),
        AlignItems::Stretch.spec_keyword() == "stretch"@,
        AlignItems::spec_from_keyword("stretch"@) == Some(AlignItems::Stretch),
{
    lemma_align_items_keyword_round_trip(AlignItems::Default);
    lemma_align_items_keyword_round_trip(AlignItems::Start);
    lemma_align_items_keyword_round_trip(AlignItems::End);
    lemma_align_items_keyword_round_trip(AlignItems::FlexStart);
    lemma_align_items_keyword_round_trip(AlignItems::FlexEnd);
    lemma_align_items_keyword_round_trip(AlignItems::Center);
    lemma_align_items_keyword_round_trip(AlignItems::Baseline);
    lemma_align_items_keyword_round_trip(AlignItems::Stretch);
}

/// Each JustifyItems value has its own CSS keyword, and each keyword names that
/// value.
pub proof fn lemma_justify_items_keyword_table()
    ensures
        JustifyItems::Default.spec_keyword() == "default"@,
        JustifyItems::spec_from_keyword("default"@) == Some(JustifyItems::Default),
        JustifyItems::Start.spec_keyword() == "start"@,
        JustifyItems::spec_from_keyword("start"@) == Some(JustifyItems::Start),
        JustifyItems::End.spec_keyword() == "end"@,
        JustifyItems::spec_from_keyword("end"@) == Some(JustifyItems::End),
        JustifyItems::Center.spec_keyword() == "center"@,
        JustifyItems::spec_from_keyword("center"@) == Some(JustifyItems::Center),
        JustifyItems::Baseline.spec_keyword() == "baseline"@,
        JustifyItems::spec_from_keyword("baseline"@) == Some(JustifyItems::Baseline),
        JustifyItems::Stretch.spec_keyword() == "stretch"@,
        JustifyItems::spec_from_keyword("stretch"@) == Some(JustifyItems::Stretch),
{
    lemma_justify_items_keyword_round_trip(JustifyItems::Default);
    lemma_justify_items_keyword_round_trip(JustifyItems::Start);
    lemma_justify_items_keyword_round_trip(JustifyItems::End);
    lemma_justify_items_keyword_round_trip(JustifyItems::Center);
    lemma_justify_items_keyword_round_trip(JustifyItems::Baseline);
    lemma_justify_items_keyword_round_trip(JustifyItems::Stretch);
}

/// Each AlignSelf value has its own CSS keyword, and each keyword names that
/// value.
pub proof fn lemma_align_self_keyword_table()
    ensures
        AlignSelf::Auto.spec_keyword() == "auto"@,
        AlignSelf::spec_from_keyword("auto"@) == Some(AlignSelf::Auto),
        AlignSelf::Start.spec_keyword() == "start"@,
        AlignSelf::spec_from_keyword("start"@) == Some(AlignSelf::Start),
        AlignSelf::End.spec_keyword() == "end"@,
        AlignSelf::spec_from_keyword("end"@) == Some(AlignSelf::End),
        AlignSelf::FlexStart.spec_keyword() == "flex-start"@,
        AlignSelf::spec_from_keyword("flex-start"@) == Some(AlignSelf::FlexStart),
        AlignSelf::FlexEnd.spec_keyword() == "flex-end"@,
        AlignSelf::spec_from_keyword("flex-end"@) == Some(AlignSelf::FlexEnd),
        AlignSelf::Center.spec_keyword() == "center"@,
        AlignSelf::spec_from_keyword("center"@) == Some(AlignSelf::Center),
        AlignSelf::Baseline.spec_keyword() == "baseline"@,
        AlignSelf::spec_from_keyword("baseline"@) == Some(AlignSelf::Baseline),
        AlignSelf::Stretch.spec_keyword() == "stretch"@,
        AlignSelf::spec_from_keyword("stretch"@) == Some(AlignSelf::Stretch),
{
    lemma_align_self_keyword_round_trip(AlignSelf::Auto);
    lemma_align_self_keyword_round_trip(AlignSelf::Start);
    lemma_align_self_keyword_round_trip(AlignSelf::End);
    lemma_align_self_keyword_round_trip(AlignSelf::FlexStart);
    lemma_align_self_keyword_round_trip(AlignSelf::FlexEnd);
    lemma_align_self_keyword_round_trip(AlignSelf::Center);
    lemma_align_self_keyword_round_trip(AlignSelf::Baseline);
    lemma_align_self_keyword_round_trip(AlignSelf::Stretch);
}

/// Each JustifySelf value has its own CSS keyword, and each keyword names that
/// value.
pub proof fn lemma_justify_self_keyword_table()
    ensures
        JustifySelf::Auto.spec_keyword() == "auto"@,
        JustifySelf::spec_from_keyword("auto"@) == Some(JustifySelf::Auto),
        JustifySelf::Start.spec_keyword() == "start"@,
        JustifySelf::spec_from_keyword("start"@) == Some(JustifySelf::Start),
        JustifySelf::End.spec_keyword() == "end"@,
        JustifySelf::spec_from_keyword("end"@) == Some(JustifySelf::End),
        JustifySelf::Center.spec_keyword() == "center"@,
        JustifySelf::spec_from_keyword("center"@) == Some(JustifySelf::Center),
        JustifySelf::Baseline.spec_keyword() == "baseline"@,
        JustifySelf::spec_from_keyword("baseline"@) == Some(JustifySelf::Baseline),
        JustifySelf::Stretch.spec_keyword() == "stretch"@,
        JustifySelf::spec_from_keyword("stretch"@) == Some(JustifySelf::Stretch),
{
    lemma_justify_self_keyword_round_trip(JustifySelf::Auto);
    lemma_justify_self_keyword_round_trip(JustifySelf::Start);
    lemma_justify_self_keyword_round_trip(JustifySelf::End);
    lemma_justify_self_keyword_round_trip(JustifySelf::Center);
    lemma_justify_self_keyword_round_trip(JustifySelf::Baseline);
    lemma_justify_self_keyword_round_trip(JustifySelf::Stretch);
}

/// Each AlignContent value has its own CSS keyword, and each keyword names that
/// value.
pub proof fn lemma_align_content_keyword_table()
    ensures
        AlignContent::Default.spec_keyword() == "default"@,
        AlignContent::spec_from_keyword("default"@) == Some(AlignContent::Default),
        AlignContent::Start.spec_keyword() == "start"@,
        AlignContent::spec_from_keyword("start"@) == Some(AlignContent::Start),
        AlignContent::End.spec_keyword() == "end"@,
        AlignContent::spec_from_keyword("end"@) == Some(AlignContent::End),
        AlignContent::FlexStart.spec_keyword() == "flex-start"@,
        AlignContent::spec_from_keyword("flex-start"@) == Some(AlignContent::FlexStart),
        AlignContent::FlexEnd.spec_keyword() == "flex-end"@,
        AlignContent::spec_from_keyword("flex-end"@) == Some(AlignContent::FlexEnd),
        AlignContent::Center.spec_keyword() == "center"@,
        AlignContent::spec_from_keyword("center"@) == Some(AlignContent::Center),
        AlignContent::Stretch.spec_keyword() == "stretch"@,
        AlignContent::spec_from_keyword("stretch"@) == Some(AlignContent::Stretch),
        AlignContent::SpaceBetween.spec_keyword() == "space-between"@,
        AlignContent::spec_from_keyword("space-between"@) == Some(AlignContent::SpaceBetween),
        AlignContent::SpaceEvenly.spec_keyword() == "space-evenly"@,
        AlignContent::spec_from_keyword("space-evenly"@) == Some(AlignContent::SpaceEvenly),
        AlignContent::SpaceAround.spec_keyword() == "space-around"@,
        AlignContent::spec_from_keyword("space-around"@) == Some(AlignContent::SpaceAround),
{
    lemma_align_content_keyword_round_trip(AlignContent::Default);
    lemma_align_content_keyword_round_trip(AlignContent::Start);
    lemma_align_content_keyword_round_trip(AlignContent::End);
    lemma_align_content_keyword_round_trip(AlignContent::FlexStart);
    lemma_align_content_keyword_round_trip(AlignContent::FlexEnd);
    lemma_align_content_keyword_round_trip(AlignContent::Center);
    lemma_align_content_keyword_round_trip(AlignContent::Stretch);
    lemma_align_content_keyword_round_trip(AlignContent::SpaceBetween);
    lemma_align_content_keyword_round_trip(AlignContent::SpaceEvenly);
    lemma_align_content_keyword_round_trip(AlignContent::SpaceAround);
}

/// Each JustifyContent value has its own CSS keyword, and each keyword names that
/// value.
pub proof fn lemma_justify_content_keyword_table()
    ensures
        JustifyContent::Default.spec_keyword() == "default"@,
        JustifyContent::spec_from_keyword("default"@) == Some(JustifyContent::Default),
        JustifyContent::Start.spec_keyword() == "start"@,
        JustifyContent::spec_from_keyword("start"@) == Some(JustifyContent::Start),
        JustifyContent::End.spec_keyword() == "end"@,
        JustifyContent::spec_from_keyword("end"@) == Some(JustifyContent::End),
        JustifyContent::FlexStart.spec_keyword() == "flex-start"@,
        JustifyContent::spec_from_keyword("flex-start"@) == Some(JustifyContent::FlexStart),
        JustifyContent::FlexEnd.spec_keyword() == "flex-end"@,
        JustifyContent::spec_from_keyword("flex-end"@) == Some(JustifyContent::FlexEnd),
        JustifyContent::Center.spec_keyword() == "center"@,
        JustifyContent::spec_from_keyword("center"@) == Some(JustifyContent::Center),
        JustifyContent::SpaceBetween.spec_keyword() == "space-between"@,
        JustifyContent::spec_from_keyword("space-between"@) == Some(JustifyContent::SpaceBetween),
        JustifyContent::SpaceEvenly.spec_keyword() == "space-evenly"@,
        JustifyContent::spec_from_keyword("space-evenly"@) == Some(JustifyContent::SpaceEvenly),
        JustifyContent::SpaceAround.spec_keyword() == "space-around"@,
        JustifyContent::spec_from_keyword("space-around"@) == Some(JustifyContent::SpaceAround),
{
    lemma_justify_content_keyword_round_trip(JustifyContent::Default);
    lemma_justify_content_keyword_round_trip(JustifyContent::Start);
    lemma_justify_content_keyword_round_trip(JustifyContent::End);
    lemma_justify_content_keyword_round_trip(JustifyContent::FlexStart);
    lemma_justify_content_keyword_round_trip(JustifyContent::FlexEnd);
    lemma_justify_content_keyword_round_trip(JustifyContent::Center);
    lemma_justify_content_keyword_round_trip(JustifyContent::SpaceBetween);
    lemma_justify_content_keyword_round_trip(JustifyContent::SpaceEvenly);
    lemma_justify_content_keyword_round_trip(JustifyContent::SpaceAround);
}

/// Each FlexDirection value has its own CSS keyword, and each keyword names that
/// value.
pub proof fn lemma_flex_direction_keyword_table()
    ensures
        FlexDirection::Row.spec_keyword() == "row"@,
        FlexDirection::spec_from_keyword("row"@) == Some(FlexDirection::Row),
        FlexDirection::Column.spec_keyword() == "column"@,
        FlexDirection::spec_from_keyword("column"@) == Some(FlexDirection::Column),
        FlexDirection::RowReverse.spec_keyword() == "row-reverse"@,
        FlexDirection::spec_from_keyword("row-reverse"@) == Some(FlexDirection::RowReverse),
        FlexDirection::ColumnReverse.spec_keyword() == "column-reverse"@,
        FlexDirection::spec_from_keyword("column-reverse"@) == Some(FlexDirection::ColumnReverse),
{
    lemma_flex_direction_keyword_round_trip(FlexDirection::Row);
    lemma_flex_direction_keyword_round_trip(FlexDirection::Column);
    lemma_flex_direction_keyword_round_trip(FlexDirection::RowReverse);
    lemma_flex_direction_keyword_round_trip(FlexDirection::ColumnReverse);
}

/// Each FlexWrap value has its own CSS keyword, and each keyword names that
/// value.
pub proof fn lemma_flex_wrap_keyword_table()
    ensures
        FlexWrap::NoWrap.spec_keyword() == "nowrap"@,
        FlexWrap::spec_from_keyword("nowrap"@) == Some(FlexWrap::NoWrap),
        FlexWrap::Wrap.spec_keyword() == "wrap"@,
        FlexWrap::spec_from_keyword("wrap"@) == Some(FlexWrap::Wrap),
        FlexWrap::WrapReverse.spec_keyword() == "wrap-reverse"@,
        FlexWrap::spec_from_keyword("wrap-reverse"@) == Some(FlexWrap::WrapReverse),
{
    lemma_flex_wrap_keyword_round_trip(FlexWrap::NoWrap);
    lemma_flex_wrap_keyword_round_trip(FlexWrap::Wrap);
    lemma_flex_wrap_keyword_round_trip(FlexWrap::WrapReverse);
}

/// Each GridAutoFlow value has its own CSS keyword, and each keyword names that
/// value.
pub proof fn lemma_grid_auto_flow_keyword_table()
    ensures
        GridAutoFlow::Row.spec_keyword() == "row"@,
        GridAutoFlow::spec_from_keyword("row"@) == Some(GridAutoFlow::Row),
        GridAutoFlow::Column.spec_keyword() == "column"@,
        GridAutoFlow::spec_from_keyword("column"@) == Some(GridAutoFlow::Column),
        GridAutoFlow::RowDense.spec_keyword() == "row-dense"@,
        GridAutoFlow::spec_from_keyword("row-dense"@) == Some(GridAutoFlow::RowDense),
        GridAutoFlow::ColumnDense.spec_keyword() == "column-dense"@,
        GridAutoFlow::spec_from_keyword("column-dense"@) == Some(GridAutoFlow::ColumnDense),
{
    lemma_grid_auto_flow_keyword_round_trip(GridAutoFlow::Row);
    lemma_grid_auto_flow_keyword_round_trip(GridAutoFlow::Column);
    lemma_grid_auto_flow_keyword_round_trip(GridAutoFlow::RowDense);
    lemma_grid_auto_flow_keyword_round_trip(GridAutoFlow::ColumnDense);
}

} // verus!
