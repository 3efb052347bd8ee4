//! Typed style expressions: an expression that stands for a value of a
//! known type, either that value or an untyped expression that may be
//! converted to it.
use vstd::prelude::*;
use crate::asset_path::{parse_asset_path, AssetRef};
use crate::coerce::Coerce;
use crate::keywords::{
    AlignContent, AlignItems, AlignSelf, Direction, Display, FlexDirection, FlexWrap,
    JustifyContent, JustifyItems, JustifySelf, OverflowAxis, PositionType,
};
use crate::number::{parse_i16, parse_i16_spec, parse_i32, parse_i32_spec, parse_u16, parse_u16_spec};
use crate::text::push_str;
use crate::untyped::{
    color_value_text, expr_length, expr_parse, expr_text, ColorValue, ExprModel, UntypedExpr,
};
use crate::values::{copy_str, val_text, val_to_str, Val};

verus! {

/// An expression which represents the possible values of a style attribute
/// of type `T`.
#[derive(Debug, PartialEq)]
pub enum StyleExpr<T> {
    /// A constant value of the type of the expression.
    Constant(T),
    /// An identifier
    Ident(String),
    /// A number, as its text
    Number(String),
    /// A length
    Length(Val),
    /// A color value
    Color(ColorValue),
    /// A reference to an asset: "asset(path)"
    Asset(AssetRef),
    /// A reference to a named style variable.
    Var(String),
}

impl<T> StyleExpr<T> {
    /// The untyped expression this expression holds; none for a constant.
    pub open spec fn untyped(self) -> Option<ExprModel> {
        match self {
            StyleExpr::Constant(_) => None,
            StyleExpr::Ident(n) => Some(ExprModel::Ident(n@)),
            StyleExpr::Number(t) => Some(ExprModel::Number(t@)),
            StyleExpr::Length(l) => Some(ExprModel::Length(l@)),
            StyleExpr::Color(c) => Some(ExprModel::Color(c@)),
            StyleExpr::Asset(a) => Some(ExprModel::Asset(a@.0)),
            StyleExpr::Var(n) => Some(ExprModel::Var(n@)),
        }
    }

    /// The typed expression that holds the untyped expression `u`.
    pub open spec fn lift(u: UntypedExpr) -> StyleExpr<T> {
        match u {
            UntypedExpr::Ident(v) => StyleExpr::Ident(v),
            UntypedExpr::Number(v) => StyleExpr::Number(v),
            UntypedExpr::Length(v) => StyleExpr::Length(v),
            UntypedExpr::Color(v) => StyleExpr::Color(v),
            UntypedExpr::Asset(v) => StyleExpr::Asset(v),
            UntypedExpr::Var(v) => StyleExpr::Var(v),
        }
    }

    /// The typed expression holding an untyped one.
    pub fn from_untyped(value: UntypedExpr) -> (r: StyleExpr<T>)
        ensures
            r.untyped() == Some(value@),
            r == Self::lift(value),
    {
        match value {
            UntypedExpr::Ident(v) => StyleExpr::Ident(v),
            UntypedExpr::Number(v) => StyleExpr::Number(v),
            UntypedExpr::Length(v) => StyleExpr::Length(v),
            UntypedExpr::Color(v) => StyleExpr::Color(v),
            UntypedExpr::Asset(v) => StyleExpr::Asset(v),
            UntypedExpr::Var(v) => StyleExpr::Var(v),
        }
    }

    /// Reads an untyped expression, as `UntypedExpr::parse` does.
    pub fn parse(input: &str) -> (r: Result<StyleExpr<T>, String>)
        ensures
            r matches Ok(x) ==> x.untyped() is Some && expr_parse(input@) == x.untyped()
                && (x matches StyleExpr::Asset(a) ==> a@.1 == parse_asset_path(a@.0)),
            r matches Err(m) ==> expr_parse(input@) is None && m@ == input@,
    {
        match UntypedExpr::parse(input) {
            Ok(x) => Ok(StyleExpr::from_untyped(x)),
            Err(m) => Err(m),
        }
    }
}

impl<T> StyleExpr<T> {
    /// The text of the untyped expression this expression holds.
    pub fn untyped_text(&self) -> (r: String)
        requires
            self.untyped() matches Some(x) && !(x is Asset),
        ensures
            r@ == expr_text(self.untyped()->0),
    {
        match self {
            StyleExpr::Ident(n) => n.clone(),
            StyleExpr::Number(t) => t.clone(),
            StyleExpr::Length(l) => val_to_str(l),
            StyleExpr::Color(c) => c.to_text(),
            StyleExpr::Var(n) => {
                let mut out = String::new();
                push_str(&mut out, "var(--");
                push_str(&mut out, n.as_str());
                push_str(&mut out, ")");
                out
            },
            _ => String::new(),
        }
    }
}

impl StyleExpr<Val> {
    /// The text of this expression: a constant as a length.
    pub fn to_text(&self) -> (r: String)
        requires
            !(self.untyped() matches Some(x) && x is Asset),
        ensures
            match *self {
                StyleExpr::Constant(v) => r@ == val_text(v@),
                _ => r@ == expr_text(self.untyped()->0),
            },
    {
        match self {
            StyleExpr::Constant(v) => val_to_str(v),
            _ => self.untyped_text(),
        }
    }
}

impl StyleExpr<ColorValue> {
    /// The text of this expression: a constant as a color.
    pub fn to_text(&self) -> (r: String)
        requires
            !(self.untyped() matches Some(x) && x is Asset),
        ensures
            match *self {
                StyleExpr::Constant(v) => r@ == color_value_text(v@),
                _ => r@ == expr_text(self.untyped()->0),
            },
    {
        match self {
            StyleExpr::Constant(v) => v.to_text(),
            _ => self.untyped_text(),
        }
    }
}

impl<T> std::str::FromStr for StyleExpr<T> {
    type Err = String;

    fn from_str(input: &str) -> (r: Result<StyleExpr<T>, String>)
        ensures
            r matches Ok(x) ==> x.untyped() is Some && expr_parse(input@) == x.untyped()
                && (x matches StyleExpr::Asset(a) ==> a@.1 == parse_asset_path(a@.0)),
            r matches Err(m) ==> expr_parse(input@) is None && m@ == input@,
    {
        StyleExpr::parse(input)
    }
}

/// The length a typed expression stands for: its constant, a length, a
/// number of pixels, or `auto`.
pub open spec fn style_length(e: StyleExpr<Val>) -> Option<Val> {
    match e {
        StyleExpr::Constant(v) => Some(v),
        StyleExpr::Length(v) => Some(v),
        StyleExpr::Number(t) => Some(Val::Px(t)),
        StyleExpr::Ident(n) => if n@ == "auto"@ {
            Some(Val::Auto)
        } else {
            None
        },
        _ => None,
    }
}

impl Coerce<Val> for StyleExpr<Val> {
    fn coerce(&self) -> (r: Option<Val>)
        ensures
            r == style_length(*self),
            match *self {
                StyleExpr::Constant(v) => r == Some(v),
                _ => match r {
                    Some(v) => expr_length(self.untyped()->0) == Some(v@),
                    None => expr_length(self.untyped()->0) is None,
                },
            },
    {
        match self {
            StyleExpr::Constant(v) => Some(v.clone()),
            StyleExpr::Length(v) => Some(v.clone()),
            StyleExpr::Number(t) => Some(Val::Px(t.clone())),
            StyleExpr::Ident(n) => if crate::keywords::str_eq(n.as_str(), "auto") {
                Some(Val::Auto)
            } else {
                None
            },
            _ => None,
        }
    }
}

/// The integer a typed expression stands for: its constant, or a number
/// whose text is an integer in range.
pub open spec fn style_i32(e: StyleExpr<i32>) -> Option<i32> {
    match e {
        StyleExpr::Constant(v) => Some(v),
        StyleExpr::Number(t) => parse_i32_spec(t@),
        _ => None,
    }
}

impl Coerce<i32> for StyleExpr<i32> {
    fn coerce(&self) -> (r: Option<i32>)
        ensures
            r == style_i32(*self),
    {
        match self {
            StyleExpr::Constant(v) => Some(*v),
            StyleExpr::Number(t) => parse_i32(t.as_str()),
            _ => None,
        }
    }
}

/// The grid line a typed expression stands for: its constant, or a number
/// whose text is an integer in range.
pub open spec fn style_i16(e: StyleExpr<i16>) -> Option<i16> {
    match e {
        StyleExpr::Constant(v) => Some(v),
        StyleExpr::Number(t) => parse_i16_spec(t@),
        _ => None,
    }
}

impl Coerce<i16> for StyleExpr<i16> {
    fn coerce(&self) -> (r: Option<i16>)
        ensures
            r == style_i16(*self),
    {
        match self {
            StyleExpr::Constant(v) => Some(*v),
            StyleExpr::Number(t) => parse_i16(t.as_str()),
            _ => None,
        }
    }
}

/// The span a typed expression stands for: its constant, or a number whose
/// text is an unsigned integer in range.
pub open spec fn style_u16(e: StyleExpr<u16>) -> Option<u16> {
    match e {
        StyleExpr::Constant(v) => Some(v),
        StyleExpr::Number(t) => parse_u16_spec(t@),
        _ => None,
    }
}

impl Coerce<u16> for StyleExpr<u16> {
    fn coerce(&self) -> (r: Option<u16>)
        ensures
            r == style_u16(*self),
    {
        match self {
            StyleExpr::Constant(v) => Some(*v),
            StyleExpr::Number(t) => parse_u16(t.as_str()),
            _ => None,
        }
    }
}

/// The number a typed expression stands for, as its text: its constant or a
/// number.
pub open spec fn style_number(e: StyleExpr<String>) -> Option<String> {
    match e {
        StyleExpr::Constant(t) => Some(t),
        StyleExpr::Number(t) => Some(t),
        _ => None,
    }
}

impl Coerce<String> for StyleExpr<String> {
    fn coerce(&self) -> (r: Option<String>)
        ensures
            r == style_number(*self),
    {
        match self {
            StyleExpr::Constant(t) => Some(t.clone()),
            StyleExpr::Number(t) => Some(t.clone()),
            _ => None,
        }
    }
}

impl Coerce<ColorValue> for StyleExpr<ColorValue> {
    fn coerce(&self) -> (r: Option<ColorValue>)
        ensures
            match *self {
                StyleExpr::Constant(v) => r == Some(v),
                StyleExpr::Color(c) => r == Some(c),
                _ => r is None,
            },
    {
        match self {
            StyleExpr::Constant(v) => Some(v.clone()),
            StyleExpr::Color(c) => Some(c.clone()),
            _ => None,
        }
    }
}

impl Coerce<AssetRef> for StyleExpr<AssetRef> {
    fn coerce(&self) -> (r: Option<AssetRef>)
        ensures
            match *self {
                StyleExpr::Constant(v) => r matches Some(a) && a@ == v@,
                StyleExpr::Asset(c) => r matches Some(a) && a@ == c@,
                _ => r is None,
            },
    {
        match self {
            StyleExpr::Constant(v) => Some(v.clone()),
            StyleExpr::Asset(c) => Some(c.clone()),
            _ => None,
        }
    }
}

impl Coerce<Display> for StyleExpr<Display> {
    fn coerce(&self) -> (r: Option<Display>)
        ensures
            match *self {
                StyleExpr::Constant(v) => r == Some(v),
                StyleExpr::Ident(n) => r == Display::spec_from_keyword(n@),
                _ => r is None,
            },
    {
        match self {
            StyleExpr::Constant(v) => Some(*v),
            StyleExpr::Ident(n) => Display::from_keyword(n.as_str()),
            _ => None,
        }
    }
}

impl StyleExpr<Display> {
    /// The text of this expression: a constant as its keyword.
    pub fn to_text(&self) -> (r: String)
        requires
            !(self.untyped() matches Some(x) && x is Asset),
        ensures
            match *self {
                StyleExpr::Constant(v) => r@ == v.spec_keyword(),
                _ => r@ == expr_text(self.untyped()->0),
            },
    {
        match self {
            StyleExpr::Constant(v) => copy_str(v.keyword()),
            _ => self.untyped_text(),
        }
    }
}

impl Coerce<PositionType> for StyleExpr<PositionType> {
    fn coerce(&self) -> (r: Option<PositionType>)
        ensures
            match *self {
                StyleExpr::Constant(v) => r == Some(v),
                StyleExpr::Ident(n) => r == PositionType::spec_from_keyword(n@),
                _ => r is None,
            },
    {
        match self {
            StyleExpr::Constant(v) => Some(*v),
            StyleExpr::Ident(n) => PositionType::from_keyword(n.as_str()),
            _ => None,
        }
    }
}

impl StyleExpr<PositionType> {
    /// The text of this expression: a constant as its keyword.
    pub fn to_text(&self) -> (r: String)
        requires
            !(self.untyped() matches Some(x) && x is Asset),
        ensures
            match *self {
                StyleExpr::Constant(v) => r@ == v.spec_keyword(),
                _ => r@ == expr_text(self.untyped()->0),
            },
    {
        match self {
            StyleExpr::Constant(v) => copy_str(v.keyword()),
            _ => self.untyped_text(),
        }
    }
}

impl Coerce<OverflowAxis> for StyleExpr<OverflowAxis> {
    fn coerce(&self) -> (r: Option<OverflowAxis>)
        ensures
            match *self {
                StyleExpr::Constant(v) => r == Some(v),
                StyleExpr::Ident(n) => r == OverflowAxis::spec_from_keyword(n@),
                _ => r is None,
            },
    {
        match self {
            StyleExpr::Constant(v) => Some(*v),
            StyleExpr::Ident(n) => OverflowAxis::from_keyword(n.as_str()),
            _ => None,
        }
    }
}

impl StyleExpr<OverflowAxis> {
    /// The text of this expression: a constant as its keyword.
    pub fn to_text(&self) -> (r: String)
        requires
            !(self.untyped() matches Some(x) && x is Asset),
        ensures
            match *self {
                StyleExpr::Constant(v) => r@ == v.spec_keyword(),
                _ => r@ == expr_text(self.untyped()->0),
            },
    {
        match self {
            StyleExpr::Constant(v) => copy_str(v.keyword()),
            _ => self.untyped_text(),
        }
    }
}

impl Coerce<Direction> for StyleExpr<Direction> {
    fn coerce(&self) -> (r: Option<Direction>)
        ensures
            match *self {
                StyleExpr::Constant(v) => r == Some(v),
                StyleExpr::Ident(n) => r == Direction::spec_from_keyword(n@),
                _ => r is None,
            },
    {
        match self {
            StyleExpr::Constant(v) => Some(*v),
            StyleExpr::Ident(n) => Direction::from_keyword(n.as_str()),
            _ => None,
        }
    }
}

impl StyleExpr<Direction> {
    /// The text of this expression: a constant as its keyword.
    pub fn to_text(&self) -> (r: String)
        requires
            !(self.untyped() matches Some(x) && x is Asset),
        ensures
            match *self {
                StyleExpr::Constant(v) => r@ == v.spec_keyword(),
                _ => r@ == expr_text(self.untyped()->0),
            },
    {
        match self {
            StyleExpr::Constant(v) => copy_str(v.keyword()),
            _ => self.untyped_text(),
        }
    }
}

impl Coerce<AlignItems> for StyleExpr<AlignItems> {
    fn coerce(&self) -> (r: Option<AlignItems>)
        ensures
            match *self {
                StyleExpr::Constant(v) => r == Some(v),
                StyleExpr::Ident(n) => r == AlignItems::spec_from_keyword(n@),
                _ => r is None,
            },
    {
        match self {
            StyleExpr::Constant(v) => Some(*v),
            StyleExpr::Ident(n) => AlignItems::from_keyword(n.as_str()),
            _ => None,
        }
    }
}

impl StyleExpr<AlignItems> {
    /// The text of this expression: a constant as its keyword.
    pub fn to_text(&self) -> (r: String)
        requires
            !(self.untyped() matches Some(x) && x is Asset),
        ensures
            match *self {
                StyleExpr::Constant(v) => r@ == v.spec_keyword(),
                _ => r@ == expr_text(self.untyped()->0),
            },
    {
        match self {
            StyleExpr::Constant(v) => copy_str(v.keyword()),
            _ => self.untyped_text(),
        }
    }
}

impl Coerce<AlignContent> for StyleExpr<AlignContent> {
    fn coerce(&self) -> (r: Option<AlignContent>)
        ensures
            match *self {
                StyleExpr::Constant(v) => r == Some(v),
                StyleExpr::Ident(n) => r == AlignContent::spec_from_keyword(n@),
                _ => r is None,
            },
    {
        match self {
            StyleExpr::Constant(v) => Some(*v),
            StyleExpr::Ident(n) => AlignContent::from_keyword(n.as_str()),
            _ => None,
        }
    }
}

impl StyleExpr<AlignContent> {
    /// The text of this expression: a constant as its keyword.
    pub fn to_text(&self) -> (r: String)
        requires
            !(self.untyped() matches Some(x) && x is Asset),
        ensures
            match *self {
                StyleExpr::Constant(v) => r@ == v.spec_keyword(),
                _ => r@ == expr_text(self.untyped()->0),
            },
    {
        match self {
            StyleExpr::Constant(v) => copy_str(v.keyword()),
            _ => self.untyped_text(),
        }
    }
}

impl Coerce<AlignSelf> for StyleExpr<AlignSelf> {
    fn coerce(&self) -> (r: Option<AlignSelf>)
        ensures
            match *self {
                StyleExpr::Constant(v) => r == Some(v),
                StyleExpr::Ident(n) => r == AlignSelf::spec_from_keyword(n@),
                _ => r is None,
            },
    {
        match self {
            StyleExpr::Constant(v) => Some(*v),
            StyleExpr::Ident(n) => AlignSelf::from_keyword(n.as_str()),
            _ => None,
        }
    }
}

impl StyleExpr<AlignSelf> {
    /// The text of this expression: a constant as its keyword.
    pub fn to_text(&self) -> (r: String)
        requires
            !(self.untyped() matches Some(x) && x is Asset),
        ensures
            match *self {
                StyleExpr::Constant(v) => r@ == v.spec_keyword(),
                _ => r@ == expr_text(self.untyped()->0),
            },
    {
        match self {
            StyleExpr::Constant(v) => copy_str(v.keyword()),
            _ => self.untyped_text(),
        }
    }
}

impl Coerce<JustifyItems> for StyleExpr<JustifyItems> {
    fn coerce(&self) -> (r: Option<JustifyItems>)
        ensures
            match *self {
                StyleExpr::Constant(v) => r == Some(v),
                StyleExpr::Ident(n) => r == JustifyItems::spec_from_keyword(n@),
                _ => r is None,
            },
    {
        match self {
            StyleExpr::Constant(v) => Some(*v),
            StyleExpr::Ident(n) => JustifyItems::from_keyword(n.as_str()),
            _ => None,
        }
    }
}

impl StyleExpr<JustifyItems> {
    /// The text of this expression: a constant as its keyword.
    pub fn to_text(&self) -> (r: String)
        requires
            !(self.untyped() matches Some(x) && x is Asset),
        ensures
            match *self {
                StyleExpr::Constant(v) => r@ == v.spec_keyword(),
                _ => r@ == expr_text(self.untyped()->0),
            },
    {
        match self {
            StyleExpr::Constant(v) => copy_str(v.keyword()),
            _ => self.untyped_text(),
        }
    }
}

impl Coerce<JustifyContent> for StyleExpr<JustifyContent> {
    fn coerce(&self) -> (r: Option<JustifyContent>)
        ensures
            match *self {
                StyleExpr::Constant(v) => r == Some(v),
                StyleExpr::Ident(n) => r == JustifyContent::spec_from_keyword(n@),
                _ => r is None,
            },
    {
        match self {
            StyleExpr::Constant(v) => Some(*v),
            StyleExpr::Ident(n) => JustifyContent::from_keyword(n.as_str()),
            _ => None,
        }
    }
}

impl StyleExpr<JustifyContent> {
    /// The text of this expression: a constant as its keyword.
    pub fn to_text(&self) -> (r: String)
        requires
            !(self.untyped() matches Some(x) && x is Asset),
        ensures
            match *self {
                StyleExpr::Constant(v) => r@ == v.spec_keyword(),
                _ => r@ == expr_text(self.untyped()->0),
            },
    {
        match self {
            StyleExpr::Constant(v) => copy_str(v.keyword()),
            _ => self.untyped_text(),
        }
    }
}

impl Coerce<JustifySelf> for StyleExpr<JustifySelf> {
    fn coerce(&self) -> (r: Option<JustifySelf>)
        ensures
            match *self {
                StyleExpr::Constant(v) => r == Some(v),
                StyleExpr::Ident(n) => r == JustifySelf::spec_from_keyword(n@),
                _ => r is None,
            },
    {
        match self {
            StyleExpr::Constant(v) => Some(*v),
            StyleExpr::Ident(n) => JustifySelf::from_keyword(n.as_str()),
            _ => None,
        }
    }
}

impl StyleExpr<JustifySelf> {
    /// The text of this expression: a constant as its keyword.
    pub fn to_text(&self) -> (r: String)
        requires
            !(self.untyped() matches Some(x) && x is Asset),
        ensures
            match *self {
                StyleExpr::Constant(v) => r@ == v.spec_keyword(),
                _ => r@ == expr_text(self.untyped()->0),
            },
    {
        match self {
            StyleExpr::Constant(v) => copy_str(v.keyword()),
            _ => self.untyped_text(),
        }
    }
}

impl Coerce<FlexDirection> for StyleExpr<FlexDirection> {
    fn coerce(&self) -> (r: Option<FlexDirection>)
        ensures
            match *self {
                StyleExpr::Constant(v) => r == Some(v),
                StyleExpr::Ident(n) => r == FlexDirection::spec_from_keyword(n@),
                _ => r is None,
            },
    {
        match self {
            StyleExpr::Constant(v) => Some(*v),
            StyleExpr::Ident(n) => FlexDirection::from_keyword(n.as_str()),
            _ => None,
        }
    }
}

impl StyleExpr<FlexDirection> {
    /// The text of this expression: a constant as its keyword.
    pub fn to_text(&self) -> (r: String)
        requires
            !(self.untyped() matches Some(x) && x is Asset),
        ensures
            match *self {
                StyleExpr::Constant(v) => r@ == v.spec_keyword(),
                _ => r@ == expr_text(self.untyped()->0),
            },
    {
        match self {
            StyleExpr::Constant(v) => copy_str(v.keyword()),
            _ => self.untyped_text(),
        }
    }
}

impl Coerce<FlexWrap> for StyleExpr<FlexWrap> {
    fn coerce(&self) -> (r: Option<FlexWrap>)
        ensures
            match *self {
                StyleExpr::Constant(v) => r == Some(v),
                StyleExpr::Ident(n) => r == FlexWrap::spec_from_keyword(n@),
                _ => r is None,
            },
    {
        match self {
            StyleExpr::Constant(v) => Some(*v),
            StyleExpr::Ident(n) => FlexWrap::from_keyword(n.as_str()),
            _ => None,
        }
    }
}

impl StyleExpr<FlexWrap> {
    /// The text of this expression: a constant as its keyword.
    pub fn to_text(&self) -> (r: String)
        requires
            !(self.untyped() matches Some(x) && x is Asset),
        ensures
            match *self {
                StyleExpr::Constant(v) => r@ == v.spec_keyword(),
                _ => r@ == expr_text(self.untyped()->0),
            },
    {
        match self {
            StyleExpr::Constant(v) => copy_str(v.keyword()),
            _ => self.untyped_text(),
        }
    }
}

} // verus!
