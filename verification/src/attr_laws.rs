//! Laws of style attributes: a property's name reads back as the property,
//! what is written of a plain value reads back as that value, and applying
//! attributes to a style.
use vstd::prelude::*;
use crate::attr::{
    attr_parse, byte_text, prop_named, value_parse, value_text, AttrValue, Prop, StyleAttr, ValueError,
};
use crate::number::{float_text, lemma_int_text_round_trip};
use crate::keywords::{
    lemma_align_content_keyword_round_trip, lemma_align_items_keyword_round_trip, lemma_align_self_keyword_round_trip, lemma_direction_keyword_round_trip, lemma_display_keyword_round_trip, lemma_flex_direction_keyword_round_trip, lemma_flex_wrap_keyword_round_trip, lemma_grid_auto_flow_keyword_round_trip, lemma_justify_content_keyword_round_trip, lemma_justify_items_keyword_round_trip, lemma_justify_self_keyword_round_trip, lemma_overflow_axis_keyword_round_trip, lemma_position_type_keyword_round_trip,
};
use crate::style::{ComputedStyle, Style};
use crate::pattern::{regex_captures, HSLA_PATTERN, RGBA_PATTERN, VAL_PATTERN};
use crate::values::{
    color_form_text, color_text, group, ColorSpec, UiRect, Val, hex_char, hex_color, hex_pair, hex_text, hex_value,
    lemma_val_text_round_trip, unit_suffix, val_parse, val_text, ColorModel, Unit,
};

verus! {

proof fn lemma_name_background_color(name: Seq<u8>)
    requires
        byte_text(name) == "background-color"@,
    ensures
        prop_named(name) == Some(Prop::BackgroundColor),
{
    reveal_strlit("background-color");
}

proof fn lemma_name_border_color(name: Seq<u8>)
    requires
        byte_text(name) == "border-color"@,
    ensures
        prop_named(name) == Some(Prop::BorderColor),
{
    reveal_strlit("border-color");
    assert("background-color"@ != "border-color"@) by { reveal_strlit("background-color"); assert("background-color"@.len() != "border-color"@.len()); }
}

proof fn lemma_name_z_index(name: Seq<u8>)
    requires
        byte_text(name) == "z-index"@,
    ensures
        prop_named(name) == Some(Prop::ZIndex),
{
    reveal_strlit("z-index");
    assert("background-color"@ != "z-index"@) by { reveal_strlit("background-color"); assert("background-color"@.len() != "z-index"@.len()); }
    assert("border-color"@ != "z-index"@) by { reveal_strlit("border-color"); assert("border-color"@.len() != "z-index"@.len()); }
}

proof fn lemma_name_display(name: Seq<u8>)
    requires
        byte_text(name) == "display"@,
    ensures
        prop_named(name) == Some(Prop::Display),
{
    reveal_strlit("display");
    assert("background-color"@ != "display"@) by { reveal_strlit("background-color"); assert("background-color"@.len() != "display"@.len()); }
    assert("border-color"@ != "display"@) by { reveal_strlit("border-color"); assert("border-color"@.len() != "display"@.len()); }
    assert("z-index"@ != "display"@) by { reveal_strlit("z-index"); assert("z-index"@[0] != "display"@[0]); }
}

proof fn lemma_name_position(name: Seq<u8>)
    requires
        byte_text(name) == "position"@,
    ensures
        prop_named(name) == Some(Prop::Position),
{
    reveal_strlit("position");
    assert("background-color"@ != "position"@) by { reveal_strlit("background-color"); assert("background-color"@.len() != "position"@.len()); }
    assert("border-color"@ != "position"@) by { reveal_strlit("border-color"); assert("border-color"@.len() != "position"@.len()); }
    assert("z-index"@ != "position"@) by { reveal_strlit("z-index"); assert("z-index"@.len() != "position"@.len()); }
    assert("display"@ != "position"@) by { reveal_strlit("display"); assert("display"@.len() != "position"@.len()); }
}

proof fn lemma_name_overflow(name: Seq<u8>)
    requires
        byte_text(name) == "overflow"@,
    ensures
        prop_named(name) == Some(Prop::Overflow),
{
    reveal_strlit("overflow");
    assert("background-color"@ != "overflow"@) by { reveal_strlit("background-color"); assert("background-color"@.len() != "overflow"@.len()); }
    assert("border-color"@ != "overflow"@) by { reveal_strlit("border-color"); assert("border-color"@.len() != "overflow"@.len()); }
    assert("z-index"@ != "overflow"@) by { reveal_strlit("z-index"); assert("z-index"@.len() != "overflow"@.len()); }
    assert("display"@ != "overflow"@) by { reveal_strlit("display"); assert("display"@.len() != "overflow"@.len()); }
    assert("position"@ != "overflow"@) by { reveal_strlit("position"); assert("position"@[0] != "overflow"@[0]); }
}

proof fn lemma_name_overflow_x(name: Seq<u8>)
    requires
        byte_text(name) == "overflow-x"@,
    ensures
        prop_named(name) == Some(Prop::OverflowX),
{
    reveal_strlit("overflow-x");
    assert("background-color"@ != "overflow-x"@) by { reveal_strlit("background-color"); assert("background-color"@.len() != "overflow-x"@.len()); }
    assert("border-color"@ != "overflow-x"@) by { reveal_strlit("border-color"); assert("border-color"@.len() != "overflow-x"@.len()); }
    assert("z-index"@ != "overflow-x"@) by { reveal_strlit("z-index"); assert("z-index"@.len() != "overflow-x"@.len()); }
    assert("display"@ != "overflow-x"@) by { reveal_strlit("display"); assert("display"@.len() != "overflow-x"@.len()); }
    assert("position"@ != "overflow-x"@) by { reveal_strlit("position"); assert("position"@.len() != "overflow-x"@.len()); }
    assert("overflow"@ != "overflow-x"@) by { reveal_strlit("overflow"); assert("overflow"@.len() != "overflow-x"@.len()); }
}

proof fn lemma_name_overflow_y(name: Seq<u8>)
    requires
        byte_text(name) == "overflow-y"@,
    ensures
        prop_named(name) == Some(Prop::OverflowY),
{
    reveal_strlit("overflow-y");
    assert("background-color"@ != "overflow-y"@) by { reveal_strlit("background-color"); assert("background-color"@.len() != "overflow-y"@.len()); }
    assert("border-color"@ != "overflow-y"@) by { reveal_strlit("border-color"); assert("border-color"@.len() != "overflow-y"@.len()); }
    assert("z-index"@ != "overflow-y"@) by { reveal_strlit("z-index"); assert("z-index"@.len() != "overflow-y"@.len()); }
    assert("display"@ != "overflow-y"@) by { reveal_strlit("display"); assert("display"@.len() != "overflow-y"@.len()); }
    assert("position"@ != "overflow-y"@) by { reveal_strlit("position"); assert("position"@.len() != "overflow-y"@.len()); }
    assert("overflow"@ != "overflow-y"@) by { reveal_strlit("overflow"); assert("overflow"@.len() != "overflow-y"@.len()); }
    assert("overflow-x"@ != "overflow-y"@) by { reveal_strlit("overflow-x"); assert("overflow-x"@[9] != "overflow-y"@[9]); }
}

proof fn lemma_name_direction(name: Seq<u8>)
    requires
        byte_text(name) == "direction"@,
    ensures
        prop_named(name) == Some(Prop::Direction),
{
    reveal_strlit("direction");
    assert("background-color"@ != "direction"@) by { reveal_strlit("background-color"); assert("background-color"@.len() != "direction"@.len()); }
    assert("border-color"@ != "direction"@) by { reveal_strlit("border-color"); assert("border-color"@.len() != "direction"@.len()); }
    assert("z-index"@ != "direction"@) by { reveal_strlit("z-index"); assert("z-index"@.len() != "direction"@.len()); }
    assert("display"@ != "direction"@) by { reveal_strlit("display"); assert("display"@.len() != "direction"@.len()); }
    assert("position"@ != "direction"@) by { reveal_strlit("position"); assert("position"@.len() != "direction"@.len()); }
    assert("overflow"@ != "direction"@) by { reveal_strlit("overflow"); assert("overflow"@.len() != "direction"@.len()); }
    assert("overflow-x"@ != "direction"@) by { reveal_strlit("overflow-x"); assert("overflow-x"@.len() != "direction"@.len()); }
    assert("overflow-y"@ != "direction"@) by { reveal_strlit("overflow-y"); assert("overflow-y"@.len() != "direction"@.len()); }
}

proof fn lemma_name_left(name: Seq<u8>)
    requires
        byte_text(name) == "left"@,
    ensures
        prop_named(name) == Some(Prop::Left),
{
    reveal_strlit("left");
    assert("background-color"@ != "left"@) by { reveal_strlit("background-color"); assert("background-color"@.len() != "left"@.len()); }
    assert("border-color"@ != "left"@) by { reveal_strlit("border-color"); assert("border-color"@.len() != "left"@.len()); }
    assert("z-index"@ != "left"@) by { reveal_strlit("z-index"); assert("z-index"@.len() != "left"@.len()); }
    assert("display"@ != "left"@) by { reveal_strlit("display"); assert("display"@.len() != "left"@.len()); }
    assert("position"@ != "left"@) by { reveal_strlit("position"); assert("position"@.len() != "left"@.len()); }
    assert("overflow"@ != "left"@) by { reveal_strlit("overflow"); assert("overflow"@.len() != "left"@.len()); }
    assert("overflow-x"@ != "left"@) by { reveal_strlit("overflow-x"); assert("overflow-x"@.len() != "left"@.len()); }
    assert("overflow-y"@ != "left"@) by { reveal_strlit("overflow-y"); assert("overflow-y"@.len() != "left"@.len()); }
    assert("direction"@ != "left"@) by { reveal_strlit("direction"); assert("direction"@.len() != "left"@.len()); }
}

proof fn lemma_name_right(name: Seq<u8>)
    requires
        byte_text(name) == "right"@,
    ensures
        prop_named(name) == Some(Prop::Right),
{
    reveal_strlit("right");
    assert("background-color"@ != "right"@) by { reveal_strlit("background-color"); assert("background-color"@.len() != "right"@.len()); }
    assert("border-color"@ != "right"@) by { reveal_strlit("border-color"); assert("border-color"@.len() != "right"@.len()); }
    assert("z-index"@ != "right"@) by { reveal_strlit("z-index"); assert("z-index"@.len() != "right"@.len()); }
    assert("display"@ != "right"@) by { reveal_strlit("display"); assert("display"@.len() != "right"@.len()); }
    assert("position"@ != "right"@) by { reveal_strlit("position"); assert("position"@.len() != "right"@.len()); }
    assert("overflow"@ != "right"@) by { reveal_strlit("overflow"); assert("overflow"@.len() != "right"@.len()); }
    assert("overflow-x"@ != "right"@) by { reveal_strlit("overflow-x"); assert("overflow-x"@.len() != "right"@.len()); }
    assert("overflow-y"@ != "right"@) by { reveal_strlit("overflow-y"); assert("overflow-y"@.len() != "right"@.len()); }
    assert("direction"@ != "right"@) by { reveal_strlit("direction"); assert("direction"@.len() != "right"@.len()); }
    assert("left"@ != "right"@) by { reveal_strlit("left"); assert("left"@.len() != "right"@.len()); }
}

proof fn lemma_name_top(name: Seq<u8>)
    requires
        byte_text(name) == "top"@,
    ensures
        prop_named(name) == Some(Prop::Top),
{
    reveal_strlit("top");
    assert("background-color"@ != "top"@) by { reveal_strlit("background-color"); assert("background-color"@.len() != "top"@.len()); }
    assert("border-color"@ != "top"@) by { reveal_strlit("border-color"); assert("border-color"@.len() != "top"@.len()); }
    assert("z-index"@ != "top"@) by { reveal_strlit("z-index"); assert("z-index"@.len() != "top"@.len()); }
    assert("display"@ != "top"@) by { reveal_strlit("display"); assert("display"@.len() != "top"@.len()); }
    assert("position"@ != "top"@) by { reveal_strlit("position"); assert("position"@.len() != "top"@.len()); }
    assert("overflow"@ != "top"@) by { reveal_strlit("overflow"); assert("overflow"@.len() != "top"@.len()); }
    assert("overflow-x"@ != "top"@) by { reveal_strlit("overflow-x"); assert("overflow-x"@.len() != "top"@.len()); }
    assert("overflow-y"@ != "top"@) by { reveal_strlit("overflow-y"); assert("overflow-y"@.len() != "top"@.len()); }
    assert("direction"@ != "top"@) by { reveal_strlit("direction"); assert("direction"@.len() != "top"@.len()); }
    assert("left"@ != "top"@) by { reveal_strlit("left"); assert("left"@.len() != "top"@.len()); }
    assert("right"@ != "top"@) by { reveal_strlit("right"); assert("right"@.len() != "top"@.len()); }
}

proof fn lemma_name_bottom(name: Seq<u8>)
    requires
        byte_text(name) == "bottom"@,
    ensures
        prop_named(name) == Some(Prop::Bottom),
{
    reveal_strlit("bottom");
    assert("background-color"@ != "bottom"@) by { reveal_strlit("background-color"); assert("background-color"@.len() != "bottom"@.len()); }
    assert("border-color"@ != "bottom"@) by { reveal_strlit("border-color"); assert("border-color"@.len() != "bottom"@.len()); }
    assert("z-index"@ != "bottom"@) by { reveal_strlit("z-index"); assert("z-index"@.len() != "bottom"@.len()); }
    assert("display"@ != "bottom"@) by { reveal_strlit("display"); assert("display"@.len() != "bottom"@.len()); }
    assert("position"@ != "bottom"@) by { reveal_strlit("position"); assert("position"@.len() != "bottom"@.len()); }
    assert("overflow"@ != "bottom"@) by { reveal_strlit("overflow"); assert("overflow"@.len() != "bottom"@.len()); }
    assert("overflow-x"@ != "bottom"@) by { reveal_strlit("overflow-x"); assert("overflow-x"@.len() != "bottom"@.len()); }
    assert("overflow-y"@ != "bottom"@) by { reveal_strlit("overflow-y"); assert("overflow-y"@.len() != "bottom"@.len()); }
    assert("direction"@ != "bottom"@) by { reveal_strlit("direction"); assert("direction"@.len() != "bottom"@.len()); }
    assert("left"@ != "bottom"@) by { reveal_strlit("left"); assert("left"@.len() != "bottom"@.len()); }
    assert("right"@ != "bottom"@) by { reveal_strlit("right"); assert("right"@.len() != "bottom"@.len()); }
    assert("top"@ != "bottom"@) by { reveal_strlit("top"); assert("top"@.len() != "bottom"@.len()); }
}

proof fn lemma_name_width(name: Seq<u8>)
    requires
        byte_text(name) == "width"@,
    ensures
        prop_named(name) == Some(Prop::Width),
{
    reveal_strlit("width");
    assert("background-color"@ != "width"@) by { reveal_strlit("background-color"); assert("background-color"@.len() != "width"@.len()); }
    assert("border-color"@ != "width"@) by { reveal_strlit("border-color"); assert("border-color"@.len() != "width"@.len()); }
    assert("z-index"@ != "width"@) by { reveal_strlit("z-index"); assert("z-index"@.len() != "width"@.len()); }
    assert("display"@ != "width"@) by { reveal_strlit("display"); assert("display"@.len() != "width"@.len()); }
    assert("position"@ != "width"@) by { reveal_strlit("position"); assert("position"@.len() != "width"@.len()); }
    assert("overflow"@ != "width"@) by { reveal_strlit("overflow"); assert("overflow"@.len() != "width"@.len()); }
    assert("overflow-x"@ != "width"@) by { reveal_strlit("overflow-x"); assert("overflow-x"@.len() != "width"@.len()); }
    assert("overflow-y"@ != "width"@) by { reveal_strlit("overflow-y"); assert("overflow-y"@.len() != "width"@.len()); }
    assert("direction"@ != "width"@) by { reveal_strlit("direction"); assert("direction"@.len() != "width"@.len()); }
    assert("left"@ != "width"@) by { reveal_strlit("left"); assert("left"@.len() != "width"@.len()); }
    assert("right"@ != "width"@) by { reveal_strlit("right"); assert("right"@[0] != "width"@[0]); }
    assert("top"@ != "width"@) by { reveal_strlit("top"); assert("top"@.len() != "width"@.len()); }
    assert("bottom"@ != "width"@) by { reveal_strlit("bottom"); assert("bottom"@.len() != "width"@.len()); }
}

proof fn lemma_name_height(name: Seq<u8>)
    requires
        byte_text(name) == "height"@,
    ensures
        prop_named(name) == Some(Prop::Height),
{
    reveal_strlit("height");
    assert("background-color"@ != "height"@) by { reveal_strlit("background-color"); assert("background-color"@.len() != "height"@.len()); }
    assert("border-color"@ != "height"@) by { reveal_strlit("border-color"); assert("border-color"@.len() != "height"@.len()); }
    assert("z-index"@ != "height"@) by { reveal_strlit("z-index"); assert("z-index"@.len() != "height"@.len()); }
    assert("display"@ != "height"@) by { reveal_strlit("display"); assert("display"@.len() != "height"@.len()); }
    assert("position"@ != "height"@) by { reveal_strlit("position"); assert("position"@.len() != "height"@.len()); }
    assert("overflow"@ != "height"@) by { reveal_strlit("overflow"); assert("overflow"@.len() != "height"@.len()); }
    assert("overflow-x"@ != "height"@) by { reveal_strlit("overflow-x"); assert("overflow-x"@.len() != "height"@.len()); }
    assert("overflow-y"@ != "height"@) by { reveal_strlit("overflow-y"); assert("overflow-y"@.len() != "height"@.len()); }
    assert("direction"@ != "height"@) by { reveal_strlit("direction"); assert("direction"@.len() != "height"@.len()); }
    assert("left"@ != "height"@) by { reveal_strlit("left"); assert("left"@.len() != "height"@.len()); }
    assert("right"@ != "height"@) by { reveal_strlit("right"); assert("right"@.len() != "height"@.len()); }
    assert("top"@ != "height"@) by { reveal_strlit("top"); assert("top"@.len() != "height"@.len()); }
    assert("bottom"@ != "height"@) by { reveal_strlit("bottom"); assert("bottom"@[0] != "height"@[0]); }
    assert("width"@ != "height"@) by { reveal_strlit("width"); assert("width"@.len() != "height"@.len()); }
}

proof fn lemma_name_min_width(name: Seq<u8>)
    requires
        byte_text(name) == "min-width"@,
    ensures
        prop_named(name) == Some(Prop::MinWidth),
{
    reveal_strlit("min-width");
    assert("background-color"@ != "min-width"@) by { reveal_strlit("background-color"); assert("background-color"@.len() != "min-width"@.len()); }
    assert("border-color"@ != "min-width"@) by { reveal_strlit("border-color"); assert("border-color"@.len() != "min-width"@.len()); }
    assert("z-index"@ != "min-width"@) by { reveal_strlit("z-index"); assert("z-index"@.len() != "min-width"@.len()); }
    assert("display"@ != "min-width"@) by { reveal_strlit("display"); assert("display"@.len() != "min-width"@.len()); }
    assert("position"@ != "min-width"@) by { reveal_strlit("position"); assert("position"@.len() != "min-width"@.len()); }
    assert("overflow"@ != "min-width"@) by { reveal_strlit("overflow"); assert("overflow"@.len() != "min-width"@.len()); }
    assert("overflow-x"@ != "min-width"@) by { reveal_strlit("overflow-x"); assert("overflow-x"@.len() != "min-width"@.len()); }
    assert("overflow-y"@ != "min-width"@) by { reveal_strlit("overflow-y"); assert("overflow-y"@.len() != "min-width"@.len()); }
    assert("direction"@ != "min-width"@) by { reveal_strlit("direction"); assert("direction"@[0] != "min-width"@[0]); }
    assert("left"@ != "min-width"@) by { reveal_strlit("left"); assert("left"@.len() != "min-width"@.len()); }
    assert("right"@ != "min-width"@) by { reveal_strlit("right"); assert("right"@.len() != "min-width"@.len()); }
    assert("top"@ != "min-width"@) by { reveal_strlit("top"); assert("top"@.len() != "min-width"@.len()); }
    assert("bottom"@ != "min-width"@) by { reveal_strlit("bottom"); assert("bottom"@.len() != "min-width"@.len()); }
    assert("width"@ != "min-width"@) by { reveal_strlit("width"); assert("width"@.len() != "min-width"@.len()); }
    assert("height"@ != "min-width"@) by { reveal_strlit("height"); assert("height"@.len() != "min-width"@.len()); }
}

proof fn lemma_name_min_height(name: Seq<u8>)
    requires
        byte_text(name) == "min-height"@,
    ensures
        prop_named(name) == Some(Prop::MinHeight),
{
    reveal_strlit("min-height");
    assert("background-color"@ != "min-height"@) by { reveal_strlit("background-color"); assert("background-color"@.len() != "min-height"@.len()); }
    assert("border-color"@ != "min-height"@) by { reveal_strlit("border-color"); assert("border-color"@.len() != "min-height"@.len()); }
    assert("z-index"@ != "min-height"@) by { reveal_strlit("z-index"); assert("z-index"@.len() != "min-height"@.len()); }
    assert("display"@ != "min-height"@) by { reveal_strlit("display"); assert("display"@.len() != "min-height"@.len()); }
    assert("position"@ != "min-height"@) by { reveal_strlit("position"); assert("position"@.len() != "min-height"@.len()); }
    assert("overflow"@ != "min-height"@) by { reveal_strlit("overflow"); assert("overflow"@.len() != "min-height"@.len()); }
    assert("overflow-x"@ != "min-height"@) by { reveal_strlit("overflow-x"); assert("overflow-x"@[0] != "min-height"@[0]); }
    assert("overflow-y"@ != "min-height"@) by { reveal_strlit("overflow-y"); assert("overflow-y"@[0] != "min-height"@[0]); }
    assert("direction"@ != "min-height"@) by { reveal_strlit("direction"); assert("direction"@.len() != "min-height"@.len()); }
    assert("left"@ != "min-height"@) by { reveal_strlit("left"); assert("left"@.len() != "min-height"@.len()); }
    assert("right"@ != "min-height"@) by { reveal_strlit("right"); assert("right"@.len() != "min-height"@.len()); }
    assert("top"@ != "min-height"@) by { reveal_strlit("top"); assert("top"@.len() != "min-height"@.len()); }
    assert("bottom"@ != "min-height"@) by { reveal_strlit("bottom"); assert("bottom"@.len() != "min-height"@.len()); }
    assert("width"@ != "min-height"@) by { reveal_strlit("width"); assert("width"@.len() != "min-height"@.len()); }
    assert("height"@ != "min-height"@) by { reveal_strlit("height"); assert("height"@.len() != "min-height"@.len()); }
    assert("min-width"@ != "min-height"@) by { reveal_strlit("min-width"); assert("min-width"@.len() != "min-height"@.len()); }
}

proof fn lemma_name_max_width(name: Seq<u8>)
    requires
        byte_text(name) == "max-width"@,
    ensures
        prop_named(name) == Some(Prop::MaxWidth),
{
    reveal_strlit("max-width");
    assert("background-color"@ != "max-width"@) by { reveal_strlit("background-color"); assert("background-color"@.len() != "max-width"@.len()); }
    assert("border-color"@ != "max-width"@) by { reveal_strlit("border-color"); assert("border-color"@.len() != "max-width"@.len()); }
    assert("z-index"@ != "max-width"@) by { reveal_strlit("z-index"); assert("z-index"@.len() != "max-width"@.len()); }
    assert("display"@ != "max-width"@) by { reveal_strlit("display"); assert("display"@.len() != "max-width"@.len()); }
    assert("position"@ != "max-width"@) by { reveal_strlit("position"); assert("position"@.len() != "max-width"@.len()); }
    assert("overflow"@ != "max-width"@) by { reveal_strlit("overflow"); assert("overflow"@.len() != "max-width"@.len()); }
    assert("overflow-x"@ != "max-width"@) by { reveal_strlit("overflow-x"); assert("overflow-x"@.len() != "max-width"@.len()); }
    assert("overflow-y"@ != "max-width"@) by { reveal_strlit("overflow-y"); assert("overflow-y"@.len() != "max-width"@.len()); }
    assert("direction"@ != "max-width"@) by { reveal_strlit("direction"); assert("direction"@[0] != "max-width"@[0]); }
    assert("left"@ != "max-width"@) by { reveal_strlit("left"); assert("left"@.len() != "max-width"@.len()); }
    assert("right"@ != "max-width"@) by { reveal_strlit("right"); assert("right"@.len() != "max-width"@.len()); }
    assert("top"@ != "max-width"@) by { reveal_strlit("top"); assert("top"@.len() != "max-width"@.len()); }
    assert("bottom"@ != "max-width"@) by { reveal_strlit("bottom"); assert("bottom"@.len() != "max-width"@.len()); }
    assert("width"@ != "max-width"@) by { reveal_strlit("width"); assert("width"@.len() != "max-width"@.len()); }
    assert("height"@ != "max-width"@) by { reveal_strlit("height"); assert("height"@.len() != "max-width"@.len()); }
    assert("min-width"@ != "max-width"@) by { reveal_strlit("min-width"); assert("min-width"@[1] != "max-width"@[1]); }
    assert("min-height"@ != "max-width"@) by { reveal_strlit("min-height"); assert("min-height"@.len() != "max-width"@.len()); }
}

proof fn lemma_name_max_height(name: Seq<u8>)
    requires
        byte_text(name) == "max-height"@,
    ensures
        prop_named(name) == Some(Prop::MaxHeight),
{
    reveal_strlit("max-height");
    assert("background-color"@ != "max-height"@) by { reveal_strlit("background-color"); assert("background-color"@.len() != "max-height"@.len()); }
    assert("border-color"@ != "max-height"@) by { reveal_strlit("border-color"); assert("border-color"@.len() != "max-height"@.len()); }
    assert("z-index"@ != "max-height"@) by { reveal_strlit("z-index"); assert("z-index"@.len() != "max-height"@.len()); }
    assert("display"@ != "max-height"@) by { reveal_strlit("display"); assert("display"@.len() != "max-height"@.len()); }
    assert("position"@ != "max-height"@) by { reveal_strlit("position"); assert("position"@.len() != "max-height"@.len()); }
    assert("overflow"@ != "max-height"@) by { reveal_strlit("overflow"); assert("overflow"@.len() != "max-height"@.len()); }
    assert("overflow-x"@ != "max-height"@) by { reveal_strlit("overflow-x"); assert("overflow-x"@[0] != "max-height"@[0]); }
    assert("overflow-y"@ != "max-height"@) by { reveal_strlit("overflow-y"); assert("overflow-y"@[0] != "max-height"@[0]); }
    assert("direction"@ != "max-height"@) by { reveal_strlit("direction"); assert("direction"@.len() != "max-height"@.len()); }
    assert("left"@ != "max-height"@) by { reveal_strlit("left"); assert("left"@.len() != "max-height"@.len()); }
    assert("right"@ != "max-height"@) by { reveal_strlit("right"); assert("right"@.len() != "max-height"@.len()); }
    assert("top"@ != "max-height"@) by { reveal_strlit("top"); assert("top"@.len() != "max-height"@.len()); }
    assert("bottom"@ != "max-height"@) by { reveal_strlit("bottom"); assert("bottom"@.len() != "max-height"@.len()); }
    assert("width"@ != "max-height"@) by { reveal_strlit("width"); assert("width"@.len() != "max-height"@.len()); }
    assert("height"@ != "max-height"@) by { reveal_strlit("height"); assert("height"@.len() != "max-height"@.len()); }
    assert("min-width"@ != "max-height"@) by { reveal_strlit("min-width"); assert("min-width"@.len() != "max-height"@.len()); }
    assert("min-height"@ != "max-height"@) by { reveal_strlit("min-height"); assert("min-height"@[1] != "max-height"@[1]); }
    assert("max-width"@ != "max-height"@) by { reveal_strlit("max-width"); assert("max-width"@.len() != "max-height"@.len()); }
}

proof fn lemma_name_align_items(name: Seq<u8>)
    requires
        byte_text(name) == "align-items"@,
    ensures
        prop_named(name) == Some(Prop::AlignItems),
{
    reveal_strlit("align-items");
    assert("background-color"@ != "align-items"@) by { reveal_strlit("background-color"); assert("background-color"@.len() != "align-items"@.len()); }
    assert("border-color"@ != "align-items"@) by { reveal_strlit("border-color"); assert("border-color"@.len() != "align-items"@.len()); }
    assert("z-index"@ != "align-items"@) by { reveal_strlit("z-index"); assert("z-index"@.len() != "align-items"@.len()); }
    assert("display"@ != "align-items"@) by { reveal_strlit("display"); assert("display"@.len() != "align-items"@.len()); }
    assert("position"@ != "align-items"@) by { reveal_strlit("position"); assert("position"@.len() != "align-items"@.len()); }
    assert("overflow"@ != "align-items"@) by { reveal_strlit("overflow"); assert("overflow"@.len() != "align-items"@.len()); }
    assert("overflow-x"@ != "align-items"@) by { reveal_strlit("overflow-x"); assert("overflow-x"@.len() != "align-items"@.len()); }
    assert("overflow-y"@ != "align-items"@) by { reveal_strlit("overflow-y"); assert("overflow-y"@.len() != "align-items"@.len()); }
    assert("direction"@ != "align-items"@) by { reveal_strlit("direction"); assert("direction"@.len() != "align-items"@.len()); }
    assert("left"@ != "align-items"@) by { reveal_strlit("left"); assert("left"@.len() != "align-items"@.len()); }
    assert("right"@ != "align-items"@) by { reveal_strlit("right"); assert("right"@.len() != "align-items"@.len()); }
    assert("top"@ != "align-items"@) by { reveal_strlit("top"); assert("top"@.len() != "align-items"@.len()); }
    assert("bottom"@ != "align-items"@) by { reveal_strlit("bottom"); assert("bottom"@.len() != "align-items"@.len()); }
    assert("width"@ != "align-items"@) by { reveal_strlit("width"); assert("width"@.len() != "align-items"@.len()); }
    assert("height"@ != "align-items"@) by { reveal_strlit("height"); assert("height"@.len() != "align-items"@.len()); }
    assert("min-width"@ != "align-items"@) by { reveal_strlit("min-width"); assert("min-width"@.len() != "align-items"@.len()); }
    assert("min-height"@ != "align-items"@) by { reveal_strlit("min-height"); assert("min-height"@.len() != "align-items"@.len()); }
    assert("max-width"@ != "align-items"@) by { reveal_strlit("max-width"); assert("max-width"@.len() != "align-items"@.len()); }
    assert("max-height"@ != "align-items"@) by { reveal_strlit("max-height"); assert("max-height"@.len() != "align-items"@.len()); }
}

proof fn lemma_name_justify_items(name: Seq<u8>)
    requires
        byte_text(name) == "justify-items"@,
    ensures
        prop_named(name) == Some(Prop::JustifyItems),
{
    reveal_strlit("justify-items");
    assert("background-color"@ != "justify-items"@) by { reveal_strlit("background-color"); assert("background-color"@.len() != "justify-items"@.len()); }
    assert("border-color"@ != "justify-items"@) by { reveal_strlit("border-color"); assert("border-color"@.len() != "justify-items"@.len()); }
    assert("z-index"@ != "justify-items"@) by { reveal_strlit("z-index"); assert("z-index"@.len() != "justify-items"@.len()); }
    assert("display"@ != "justify-items"@) by { reveal_strlit("display"); assert("display"@.len() != "justify-items"@.len()); }
    assert("position"@ != "justify-items"@) by { reveal_strlit("position"); assert("position"@.len() != "justify-items"@.len()); }
    assert("overflow"@ != "justify-items"@) by { reveal_strlit("overflow"); assert("overflow"@.len() != "justify-items"@.len()); }
    assert("overflow-x"@ != "justify-items"@) by { reveal_strlit("overflow-x"); assert("overflow-x"@.len() != "justify-items"@.len()); }
    assert("overflow-y"@ != "justify-items"@) by { reveal_strlit("overflow-y"); assert("overflow-y"@.len() != "justify-items"@.len()); }
    assert("direction"@ != "justify-items"@) by { reveal_strlit("direction"); assert("direction"@.len() != "justify-items"@.len()); }
    assert("left"@ != "justify-items"@) by { reveal_strlit("left"); assert("left"@.len() != "justify-items"@.len()); }
    assert("right"@ != "justify-items"@) by { reveal_strlit("right"); assert("right"@.len() != "justify-items"@.len()); }
    assert("top"@ != "justify-items"@) by { reveal_strlit("top"); assert("top"@.len() != "justify-items"@.len()); }
    assert("bottom"@ != "justify-items"@) by { reveal_strlit("bottom"); assert("bottom"@.len() != "justify-items"@.len()); }
    assert("width"@ != "justify-items"@) by { reveal_strlit("width"); assert("width"@.len() != "justify-items"@.len()); }
    assert("height"@ != "justify-items"@) by { reveal_strlit("height"); assert("height"@.len() != "justify-items"@.len()); }
    assert("min-width"@ != "justify-items"@) by { reveal_strlit("min-width"); assert("min-width"@.len() != "justify-items"@.len()); }
    assert("min-height"@ != "justify-items"@) by { reveal_strlit("min-height"); assert("min-height"@.len() != "justify-items"@.len()); }
    assert("max-width"@ != "justify-items"@) by { reveal_strlit("max-width"); assert("max-width"@.len() != "justify-items"@.len()); }
    assert("max-height"@ != "justify-items"@) by { reveal_strlit("max-height"); assert("max-height"@.len() != "justify-items"@.len()); }
    assert("align-items"@ != "justify-items"@) by { reveal_strlit("align-items"); assert("align-items"@.len() != "justify-items"@.len()); }
}

proof fn lemma_name_align_self(name: Seq<u8>)
    requires
        byte_text(name) == "align-self"@,
    ensures
        prop_named(name) == Some(Prop::AlignSelf),
{
    reveal_strlit("align-self");
    assert("background-color"@ != "align-self"@) by { reveal_strlit("background-color"); assert("background-color"@.len() != "align-self"@.len()); }
    assert("border-color"@ != "align-self"@) by { reveal_strlit("border-color"); assert("border-color"@.len() != "align-self"@.len()); }
    assert("z-index"@ != "align-self"@) by { reveal_strlit("z-index"); assert("z-index"@.len() != "align-self"@.len()); }
    assert("display"@ != "align-self"@) by { reveal_strlit("display"); assert("display"@.len() != "align-self"@.len()); }
    assert("position"@ != "align-self"@) by { reveal_strlit("position"); assert("position"@.len() != "align-self"@.len()); }
    assert("overflow"@ != "align-self"@) by { reveal_strlit("overflow"); assert("overflow"@.len() != "align-self"@.len()); }
    assert("overflow-x"@ != "align-self"@) by { reveal_strlit("overflow-x"); assert("overflow-x"@[0] != "align-self"@[0]); }
    assert("overflow-y"@ != "align-self"@) by { reveal_strlit("overflow-y"); assert("overflow-y"@[0] != "align-self"@[0]); }
    assert("direction"@ != "align-self"@) by { reveal_strlit("direction"); assert("direction"@.len() != "align-self"@.len()); }
    assert("left"@ != "align-self"@) by { reveal_strlit("left"); assert("left"@.len() != "align-self"@.len()); }
    assert("right"@ != "align-self"@) by { reveal_strlit("right"); assert("right"@.len() != "align-self"@.len()); }
    assert("top"@ != "align-self"@) by { reveal_strlit("top"); assert("top"@.len() != "align-self"@.len()); }
    assert("bottom"@ != "align-self"@) by { reveal_strlit("bottom"); assert("bottom"@.len() != "align-self"@.len()); }
    assert("width"@ != "align-self"@) by { reveal_strlit("width"); assert("width"@.len() != "align-self"@.len()); }
    assert("height"@ != "align-self"@) by { reveal_strlit("height"); assert("height"@.len() != "align-self"@.len()); }
    assert("min-width"@ != "align-self"@) by { reveal_strlit("min-width"); assert("min-width"@.len() != "align-self"@.len()); }
    assert("min-height"@ != "align-self"@) by { reveal_strlit("min-height"); assert("min-height"@[0] != "align-self"@[0]); }
    assert("max-width"@ != "align-self"@) by { reveal_strlit("max-width"); assert("max-width"@.len() != "align-self"@.len()); }
    assert("max-height"@ != "align-self"@) by { reveal_strlit("max-height"); assert("max-height"@[0] != "align-self"@[0]); }
    assert("align-items"@ != "align-self"@) by { reveal_strlit("align-items"); assert("align-items"@.len() != "align-self"@.len()); }
    assert("justify-items"@ != "align-self"@) by { reveal_strlit("justify-items"); assert("justify-items"@.len() != "align-self"@.len()); }
}

proof fn lemma_name_justify_self(name: Seq<u8>)
    requires
        byte_text(name) == "justify-self"@,
    ensures
        prop_named(name) == Some(Prop::JustifySelf),
{
    reveal_strlit("justify-self");
    assert("background-color"@ != "justify-self"@) by { reveal_strlit("background-color"); assert("background-color"@.len() != "justify-self"@.len()); }
    assert("border-color"@ != "justify-self"@) by { reveal_strlit("border-color"); assert("border-color"@[0] != "justify-self"@[0]); }
    assert("z-index"@ != "justify-self"@) by { reveal_strlit("z-index"); assert("z-index"@.len() != "justify-self"@.len()); }
    assert("display"@ != "justify-self"@) by { reveal_strlit("display"); assert("display"@.len() != "justify-self"@.len()); }
    assert("position"@ != "justify-self"@) by { reveal_strlit("position"); assert("position"@.len() != "justify-self"@.len()); }
    assert("overflow"@ != "justify-self"@) by { reveal_strlit("overflow"); assert("overflow"@.len() != "justify-self"@.len()); }
    assert("overflow-x"@ != "justify-self"@) by { reveal_strlit("overflow-x"); assert("overflow-x"@.len() != "justify-self"@.len()); }
    assert("overflow-y"@ != "justify-self"@) by { reveal_strlit("overflow-y"); assert("overflow-y"@.len() != "justify-self"@.len()); }
    assert("direction"@ != "justify-self"@) by { reveal_strlit("direction"); assert("direction"@.len() != "justify-self"@.len()); }
    assert("left"@ != "justify-self"@) by { reveal_strlit("left"); assert("left"@.len() != "justify-self"@.len()); }
    assert("right"@ != "justify-self"@) by { reveal_strlit("right"); assert("right"@.len() != "justify-self"@.len()); }
    assert("top"@ != "justify-self"@) by { reveal_strlit("top"); assert("top"@.len() != "justify-self"@.len()); }
    assert("bottom"@ != "justify-self"@) by { reveal_strlit("bottom"); assert("bottom"@.len() != "justify-self"@.len()); }
    assert("width"@ != "justify-self"@) by { reveal_strlit("width"); assert("width"@.len() != "justify-self"@.len()); }
    assert("height"@ != "justify-self"@) by { reveal_strlit("height"); assert("height"@.len() != "justify-self"@.len()); }
    assert("min-width"@ != "justify-self"@) by { reveal_strlit("min-width"); assert("min-width"@.len() != "justify-self"@.len()); }
    assert("min-height"@ != "justify-self"@) by { reveal_strlit("min-height"); assert("min-height"@.len() != "justify-self"@.len()); }
    assert("max-width"@ != "justify-self"@) by { reveal_strlit("max-width"); assert("max-width"@.len() != "justify-self"@.len()); }
    assert("max-height"@ != "justify-self"@) by { reveal_strlit("max-height"); assert("max-height"@.len() != "justify-self"@.len()); }
    assert("align-items"@ != "justify-self"@) by { reveal_strlit("align-items"); assert("align-items"@.len() != "justify-self"@.len()); }
    assert("justify-items"@ != "justify-self"@) by { reveal_strlit("justify-items"); assert("justify-items"@.len() != "justify-self"@.len()); }
    assert("align-self"@ != "justify-self"@) by { reveal_strlit("align-self"); assert("align-self"@.len() != "justify-self"@.len()); }
}

proof fn lemma_name_align_content(name: Seq<u8>)
    requires
        byte_text(name) == "align-content"@,
    ensures
        prop_named(name) == Some(Prop::AlignContent),
{
    reveal_strlit("align-content");
    assert("background-color"@ != "align-content"@) by { reveal_strlit("background-color"); assert("background-color"@.len() != "align-content"@.len()); }
    assert("border-color"@ != "align-content"@) by { reveal_strlit("border-color"); assert("border-color"@.len() != "align-content"@.len()); }
    assert("z-index"@ != "align-content"@) by { reveal_strlit("z-index"); assert("z-index"@.len() != "align-content"@.len()); }
    assert("display"@ != "align-content"@) by { reveal_strlit("display"); assert("display"@.len() != "align-content"@.len()); }
    assert("position"@ != "align-content"@) by { reveal_strlit("position"); assert("position"@.len() != "align-content"@.len()); }
    assert("overflow"@ != "align-content"@) by { reveal_strlit("overflow"); assert("overflow"@.len() != "align-content"@.len()); }
    assert("overflow-x"@ != "align-content"@) by { reveal_strlit("overflow-x"); assert("overflow-x"@.len() != "align-content"@.len()); }
    assert("overflow-y"@ != "align-content"@) by { reveal_strlit("overflow-y"); assert("overflow-y"@.len() != "align-content"@.len()); }
    assert("direction"@ != "align-content"@) by { reveal_strlit("direction"); assert("direction"@.len() != "align-content"@.len()); }
    assert("left"@ != "align-content"@) by { reveal_strlit("left"); assert("left"@.len() != "align-content"@.len()); }
    assert("right"@ != "align-content"@) by { reveal_strlit("right"); assert("right"@.len() != "align-content"@.len()); }
    assert("top"@ != "align-content"@) by { reveal_strlit("top"); assert("top"@.len() != "align-content"@.len()); }
    assert("bottom"@ != "align-content"@) by { reveal_strlit("bottom"); assert("bottom"@.len() != "align-content"@.len()); }
    assert("width"@ != "align-content"@) by { reveal_strlit("width"); assert("width"@.len() != "align-content"@.len()); }
    assert("height"@ != "align-content"@) by { reveal_strlit("height"); assert("height"@.len() != "align-content"@.len()); }
    assert("min-width"@ != "align-content"@) by { reveal_strlit("min-width"); assert("min-width"@.len() != "align-content"@.len()); }
    assert("min-height"@ != "align-content"@) by { reveal_strlit("min-height"); assert("min-height"@.len() != "align-content"@.len()); }
    assert("max-width"@ != "align-content"@) by { reveal_strlit("max-width"); assert("max-width"@.len() != "align-content"@.len()); }
    assert("max-height"@ != "align-content"@) by { reveal_strlit("max-height"); assert("max-height"@.len() != "align-content"@.len()); }
    assert("align-items"@ != "align-content"@) by { reveal_strlit("align-items"); assert("align-items"@.len() != "align-content"@.len()); }
    assert("justify-items"@ != "align-content"@) by { reveal_strlit("justify-items"); assert("justify-items"@[0] != "align-content"@[0]); }
    assert("align-self"@ != "align-content"@) by { reveal_strlit("align-self"); assert("align-self"@.len() != "align-content"@.len()); }
    assert("justify-self"@ != "align-content"@) by { reveal_strlit("justify-self"); assert("justify-self"@.len() != "align-content"@.len()); }
}

proof fn lemma_name_justify_content(name: Seq<u8>)
    requires
        byte_text(name) == "justify-content"@,
    ensures
        prop_named(name) == Some(Prop::JustifyContent),
{
    reveal_strlit("justify-content");
    assert("background-color"@ != "justify-content"@) by { reveal_strlit("background-color"); assert("background-color"@.len() != "justify-content"@.len()); }
    assert("border-color"@ != "justify-content"@) by { reveal_strlit("border-color"); assert("border-color"@.len() != "justify-content"@.len()); }
    assert("z-index"@ != "justify-content"@) by { reveal_strlit("z-index"); assert("z-index"@.len() != "justify-content"@.len()); }
    assert("display"@ != "justify-content"@) by { reveal_strlit("display"); assert("display"@.len() != "justify-content"@.len()); }
    assert("position"@ != "justify-content"@) by { reveal_strlit("position"); assert("position"@.len() != "justify-content"@.len()); }
    assert("overflow"@ != "justify-content"@) by { reveal_strlit("overflow"); assert("overflow"@.len() != "justify-content"@.len()); }
    assert("overflow-x"@ != "justify-content"@) by { reveal_strlit("overflow-x"); assert("overflow-x"@.len() != "justify-content"@.len()); }
    assert("overflow-y"@ != "justify-content"@) by { reveal_strlit("overflow-y"); assert("overflow-y"@.len() != "justify-content"@.len()); }
    assert("direction"@ != "justify-content"@) by { reveal_strlit("direction"); assert("direction"@.len() != "justify-content"@.len()); }
    assert("left"@ != "justify-content"@) by { reveal_strlit("left"); assert("left"@.len() != "justify-content"@.len()); }
    assert("right"@ != "justify-content"@) by { reveal_strlit("right"); assert("right"@.len() != "justify-content"@.len()); }
    assert("top"@ != "justify-content"@) by { reveal_strlit("top"); assert("top"@.len() != "justify-content"@.len()); }
    assert("bottom"@ != "justify-content"@) by { reveal_strlit("bottom"); assert("bottom"@.len() != "justify-content"@.len()); }
    assert("width"@ != "justify-content"@) by { reveal_strlit("width"); assert("width"@.len() != "justify-content"@.len()); }
    assert("height"@ != "justify-content"@) by { reveal_strlit("height"); assert("height"@.len() != "justify-content"@.len()); }
    assert("min-width"@ != "justify-content"@) by { reveal_strlit("min-width"); assert("min-width"@.len() != "justify-content"@.len()); }
    assert("min-height"@ != "justify-content"@) by { reveal_strlit("min-height"); assert("min-height"@.len() != "justify-content"@.len()); }
    assert("max-width"@ != "justify-content"@) by { reveal_strlit("max-width"); assert("max-width"@.len() != "justify-content"@.len()); }
    assert("max-height"@ != "justify-content"@) by { reveal_strlit("max-height"); assert("max-height"@.len() != "justify-content"@.len()); }
    assert("align-items"@ != "justify-content"@) by { reveal_strlit("align-items"); assert("align-items"@.len() != "justify-content"@.len()); }
    assert("justify-items"@ != "justify-content"@) by { reveal_strlit("justify-items"); assert("justify-items"@.len() != "justify-content"@.len()); }
    assert("align-self"@ != "justify-content"@) by { reveal_strlit("align-self"); assert("align-self"@.len() != "justify-content"@.len()); }
    assert("justify-self"@ != "justify-content"@) by { reveal_strlit("justify-self"); assert("justify-self"@.len() != "justify-content"@.len()); }
    assert("align-content"@ != "justify-content"@) by { reveal_strlit("align-content"); assert("align-content"@.len() != "justify-content"@.len()); }
}

proof fn lemma_name_margin(name: Seq<u8>)
    requires
        byte_text(name) == "margin"@,
    ensures
        prop_named(name) == Some(Prop::Margin),
{
    reveal_strlit("margin");
    assert("background-color"@ != "margin"@) by { reveal_strlit("background-color"); assert("background-color"@.len() != "margin"@.len()); }
    assert("border-color"@ != "margin"@) by { reveal_strlit("border-color"); assert("border-color"@.len() != "margin"@.len()); }
    assert("z-index"@ != "margin"@) by { reveal_strlit("z-index"); assert("z-index"@.len() != "margin"@.len()); }
    assert("display"@ != "margin"@) by { reveal_strlit("display"); assert("display"@.len() != "margin"@.len()); }
    assert("position"@ != "margin"@) by { reveal_strlit("position"); assert("position"@.len() != "margin"@.len()); }
    assert("overflow"@ != "margin"@) by { reveal_strlit("overflow"); assert("overflow"@.len() != "margin"@.len()); }
    assert("overflow-x"@ != "margin"@) by { reveal_strlit("overflow-x"); assert("overflow-x"@.len() != "margin"@.len()); }
    assert("overflow-y"@ != "margin"@) by { reveal_strlit("overflow-y"); assert("overflow-y"@.len() != "margin"@.len()); }
    assert("direction"@ != "margin"@) by { reveal_strlit("direction"); assert("direction"@.len() != "margin"@.len()); }
    assert("left"@ != "margin"@) by { reveal_strlit("left"); assert("left"@.len() != "margin"@.len()); }
    assert("right"@ != "margin"@) by { reveal_strlit("right"); assert("right"@.len() != "margin"@.len()); }
    assert("top"@ != "margin"@) by { reveal_strlit("top"); assert("top"@.len() != "margin"@.len()); }
    assert("bottom"@ != "margin"@) by { reveal_strlit("bottom"); assert("bottom"@[0] != "margin"@[0]); }
    assert("width"@ != "margin"@) by { reveal_strlit("width"); assert("width"@.len() != "margin"@.len()); }
    assert("height"@ != "margin"@) by { reveal_strlit("height"); assert("height"@[0] != "margin"@[0]); }
    assert("min-width"@ != "margin"@) by { reveal_strlit("min-width"); assert("min-width"@.len() != "margin"@.len()); }
    assert("min-height"@ != "margin"@) by { reveal_strlit("min-height"); assert("min-height"@.len() != "margin"@.len()); }
    assert("max-width"@ != "margin"@) by { reveal_strlit("max-width"); assert("max-width"@.len() != "margin"@.len()); }
    assert("max-height"@ != "margin"@) by { reveal_strlit("max-height"); assert("max-height"@.len() != "margin"@.len()); }
    assert("align-items"@ != "margin"@) by { reveal_strlit("align-items"); assert("align-items"@.len() != "margin"@.len()); }
    assert("justify-items"@ != "margin"@) by { reveal_strlit("justify-items"); assert("justify-items"@.len() != "margin"@.len()); }
    assert("align-self"@ != "margin"@) by { reveal_strlit("align-self"); assert("align-self"@.len() != "margin"@.len()); }
    assert("justify-self"@ != "margin"@) by { reveal_strlit("justify-self"); assert("justify-self"@.len() != "margin"@.len()); }
    assert("align-content"@ != "margin"@) by { reveal_strlit("align-content"); assert("align-content"@.len() != "margin"@.len()); }
    assert("justify-content"@ != "margin"@) by { reveal_strlit("justify-content"); assert("justify-content"@.len() != "margin"@.len()); }
}

proof fn lemma_name_margin_left(name: Seq<u8>)
    requires
        byte_text(name) == "margin-left"@,
    ensures
        prop_named(name) == Some(Prop::MarginLeft),
{
    reveal_strlit("margin-left");
    assert("background-color"@ != "margin-left"@) by { reveal_strlit("background-color"); assert("background-color"@.len() != "margin-left"@.len()); }
    assert("border-color"@ != "margin-left"@) by { reveal_strlit("border-color"); assert("border-color"@.len() != "margin-left"@.len()); }
    assert("z-index"@ != "margin-left"@) by { reveal_strlit("z-index"); assert("z-index"@.len() != "margin-left"@.len()); }
    assert("display"@ != "margin-left"@) by { reveal_strlit("display"); assert("display"@.len() != "margin-left"@.len()); }
    assert("position"@ != "margin-left"@) by { reveal_strlit("position"); assert("position"@.len() != "margin-left"@.len()); }
    assert("overflow"@ != "margin-left"@) by { reveal_strlit("overflow"); assert("overflow"@.len() != "margin-left"@.len()); }
    assert("overflow-x"@ != "margin-left"@) by { reveal_strlit("overflow-x"); assert("overflow-x"@.len() != "margin-left"@.len()); }
    assert("overflow-y"@ != "margin-left"@) by { reveal_strlit("overflow-y"); assert("overflow-y"@.len() != "margin-left"@.len()); }
    assert("direction"@ != "margin-left"@) by { reveal_strlit("direction"); assert("direction"@.len() != "margin-left"@.len()); }
    assert("left"@ != "margin-left"@) by { reveal_strlit("left"); assert("left"@.len() != "margin-left"@.len()); }
    assert("right"@ != "margin-left"@) by { reveal_strlit("right"); assert("right"@.len() != "margin-left"@.len()); }
    assert("top"@ != "margin-left"@) by { reveal_strlit("top"); assert("top"@.len() != "margin-left"@.len()); }
    assert("bottom"@ != "margin-left"@) by { reveal_strlit("bottom"); assert("bottom"@.len() != "margin-left"@.len()); }
    assert("width"@ != "margin-left"@) by { reveal_strlit("width"); assert("width"@.len() != "margin-left"@.len()); }
    assert("height"@ != "margin-left"@) by { reveal_strlit("height"); assert("height"@.len() != "margin-left"@.len()); }
    assert("min-width"@ != "margin-left"@) by { reveal_strlit("min-width"); assert("min-width"@.len() != "margin-left"@.len()); }
    assert("min-height"@ != "margin-left"@) by { reveal_strlit("min-height"); assert("min-height"@.len() != "margin-left"@.len()); }
    assert("max-width"@ != "margin-left"@) by { reveal_strlit("max-width"); assert("max-width"@.len() != "margin-left"@.len()); }
    assert("max-height"@ != "margin-left"@) by { reveal_strlit("max-height"); assert("max-height"@.len() != "margin-left"@.len()); }
    assert("align-items"@ != "margin-left"@) by { reveal_strlit("align-items"); assert("align-items"@[0] != "margin-left"@[0]); }
    assert("justify-items"@ != "margin-left"@) by { reveal_strlit("justify-items"); assert("justify-items"@.len() != "margin-left"@.len()); }
    assert("align-self"@ != "margin-left"@) by { reveal_strlit("align-self"); assert("align-self"@.len() != "margin-left"@.len()); }
    assert("justify-self"@ != "margin-left"@) by { reveal_strlit("justify-self"); assert("justify-self"@.len() != "margin-left"@.len()); }
    assert("align-content"@ != "margin-left"@) by { reveal_strlit("align-content"); assert("align-content"@.len() != "margin-left"@.len()); }
    assert("justify-content"@ != "margin-left"@) by { reveal_strlit("justify-content"); assert("justify-content"@.len() != "margin-left"@.len()); }
    assert("margin"@ != "margin-left"@) by { reveal_strlit("margin"); assert("margin"@.len() != "margin-left"@.len()); }
}

proof fn lemma_name_margin_right(name: Seq<u8>)
    requires
        byte_text(name) == "margin-right"@,
    ensures
        prop_named(name) == Some(Prop::MarginRight),
{
    reveal_strlit("margin-right");
    assert("background-color"@ != "margin-right"@) by { reveal_strlit("background-color"); assert("background-color"@.len() != "margin-right"@.len()); }
    assert("border-color"@ != "margin-right"@) by { reveal_strlit("border-color"); assert("border-color"@[0] != "margin-right"@[0]); }
    assert("z-index"@ != "margin-right"@) by { reveal_strlit("z-index"); assert("z-index"@.len() != "margin-right"@.len()); }
    assert("display"@ != "margin-right"@) by { reveal_strlit("display"); assert("display"@.len() != "margin-right"@.len()); }
    assert("position"@ != "margin-right"@) by { reveal_strlit("position"); assert("position"@.len() != "margin-right"@.len()); }
    assert("overflow"@ != "margin-right"@) by { reveal_strlit("overflow"); assert("overflow"@.len() != "margin-right"@.len()); }
    assert("overflow-x"@ != "margin-right"@) by { reveal_strlit("overflow-x"); assert("overflow-x"@.len() != "margin-right"@.len()); }
    assert("overflow-y"@ != "margin-right"@) by { reveal_strlit("overflow-y"); assert("overflow-y"@.len() != "margin-right"@.len()); }
    assert("direction"@ != "margin-right"@) by { reveal_strlit("direction"); assert("direction"@.len() != "margin-right"@.len()); }
    assert("left"@ != "margin-right"@) by { reveal_strlit("left"); assert("left"@.len() != "margin-right"@.len()); }
    assert("right"@ != "margin-right"@) by { reveal_strlit("right"); assert("right"@.len() != "margin-right"@.len()); }
    assert("top"@ != "margin-right"@) by { reveal_strlit("top"); assert("top"@.len() != "margin-right"@.len()); }
    assert("bottom"@ != "margin-right"@) by { reveal_strlit("bottom"); assert("bottom"@.len() != "margin-right"@.len()); }
    assert("width"@ != "margin-right"@) by { reveal_strlit("width"); assert("width"@.len() != "margin-right"@.len()); }
    assert("height"@ != "margin-right"@) by { reveal_strlit("height"); assert("height"@.len() != "margin-right"@.len()); }
    assert("min-width"@ != "margin-right"@) by { reveal_strlit("min-width"); assert("min-width"@.len() != "margin-right"@.len()); }
    assert("min-height"@ != "margin-right"@) by { reveal_strlit("min-height"); assert("min-height"@.len() != "margin-right"@.len()); }
    assert("max-width"@ != "margin-right"@) by { reveal_strlit("max-width"); assert("max-width"@.len() != "margin-right"@.len()); }
    assert("max-height"@ != "margin-right"@) by { reveal_strlit("max-height"); assert("max-height"@.len() != "margin-right"@.len()); }
    assert("align-items"@ != "margin-right"@) by { reveal_strlit("align-items"); assert("align-items"@.len() != "margin-right"@.len()); }
    assert("justify-items"@ != "margin-right"@) by { reveal_strlit("justify-items"); assert("justify-items"@.len() != "margin-right"@.len()); }
    assert("align-self"@ != "margin-right"@) by { reveal_strlit("align-self"); assert("align-self"@.len() != "margin-right"@.len()); }
    assert("justify-self"@ != "margin-right"@) by { reveal_strlit("justify-self"); assert("justify-self"@[0] != "margin-right"@[0]); }
    assert("align-content"@ != "margin-right"@) by { reveal_strlit("align-content"); assert("align-content"@.len() != "margin-right"@.len()); }
    assert("justify-content"@ != "margin-right"@) by { reveal_strlit("justify-content"); assert("justify-content"@.len() != "margin-right"@.len()); }
    assert("margin"@ != "margin-right"@) by { reveal_strlit("margin"); assert("margin"@.len() != "margin-right"@.len()); }
    assert("margin-left"@ != "margin-right"@) by { reveal_strlit("margin-left"); assert("margin-left"@.len() != "margin-right"@.len()); }
}

proof fn lemma_name_margin_top(name: Seq<u8>)
    requires
        byte_text(name) == "margin-top"@,
    ensures
        prop_named(name) == Some(Prop::MarginTop),
{
    reveal_strlit("margin-top");
    assert("background-color"@ != "margin-top"@) by { reveal_strlit("background-color"); assert("background-color"@.len() != "margin-top"@.len()); }
    assert("border-color"@ != "margin-top"@) by { reveal_strlit("border-color"); assert("border-color"@.len() != "margin-top"@.len()); }
    assert("z-index"@ != "margin-top"@) by { reveal_strlit("z-index"); assert("z-index"@.len() != "margin-top"@.len()); }
    assert("display"@ != "margin-top"@) by { reveal_strlit("display"); assert("display"@.len() != "margin-top"@.len()); }
    assert("position"@ != "margin-top"@) by { reveal_strlit("position"); assert("position"@.len() != "margin-top"@.len()); }
    assert("overflow"@ != "margin-top"@) by { reveal_strlit("overflow"); assert("overflow"@.len() != "margin-top"@.len()); }
    assert("overflow-x"@ != "margin-top"@) by { reveal_strlit("overflow-x"); assert("overflow-x"@[0] != "margin-top"@[0]); }
    assert("overflow-y"@ != "margin-top"@) by { reveal_strlit("overflow-y"); assert("overflow-y"@[0] != "margin-top"@[0]); }
    assert("direction"@ != "margin-top"@) by { reveal_strlit("direction"); assert("direction"@.len() != "margin-top"@.len()); }
    assert("left"@ != "margin-top"@) by { reveal_strlit("left"); assert("left"@.len() != "margin-top"@.len()); }
    assert("right"@ != "margin-top"@) by { reveal_strlit("right"); assert("right"@.len() != "margin-top"@.len()); }
    assert("top"@ != "margin-top"@) by { reveal_strlit("top"); assert("top"@.len() != "margin-top"@.len()); }
    assert("bottom"@ != "margin-top"@) by { reveal_strlit("bottom"); assert("bottom"@.len() != "margin-top"@.len()); }
    assert("width"@ != "margin-top"@) by { reveal_strlit("width"); assert("width"@.len() != "margin-top"@.len()); }
    assert("height"@ != "margin-top"@) by { reveal_strlit("height"); assert("height"@.len() != "margin-top"@.len()); }
    assert("min-width"@ != "margin-top"@) by { reveal_strlit("min-width"); assert("min-width"@.len() != "margin-top"@.len()); }
    assert("min-height"@ != "margin-top"@) by { reveal_strlit("min-height"); assert("min-height"@[1] != "margin-top"@[1]); }
    assert("max-width"@ != "margin-top"@) by { reveal_strlit("max-width"); assert("max-width"@.len() != "margin-top"@.len()); }
    assert("max-height"@ != "margin-top"@) by { reveal_strlit("max-height"); assert("max-height"@[2] != "margin-top"@[2]); }
    assert("align-items"@ != "margin-top"@) by { reveal_strlit("align-items"); assert("align-items"@.len() != "margin-top"@.len()); }
    assert("justify-items"@ != "margin-top"@) by { reveal_strlit("justify-items"); assert("justify-items"@.len() != "margin-top"@.len()); }
    assert("align-self"@ != "margin-top"@) by { reveal_strlit("align-self"); assert("align-self"@[0] != "margin-top"@[0]); }
    assert("justify-self"@ != "margin-top"@) by { reveal_strlit("justify-self"); assert("justify-self"@.len() != "margin-top"@.len()); }
    assert("align-content"@ != "margin-top"@) by { reveal_strlit("align-content"); assert("align-content"@.len() != "margin-top"@.len()); }
    assert("justify-content"@ != "margin-top"@) by { reveal_strlit("justify-content"); assert("justify-content"@.len() != "margin-top"@.len()); }
    assert("margin"@ != "margin-top"@) by { reveal_strlit("margin"); assert("margin"@.len() != "margin-top"@.len()); }
    assert("margin-left"@ != "margin-top"@) by { reveal_strlit("margin-left"); assert("margin-left"@.len() != "margin-top"@.len()); }
    assert("margin-right"@ != "margin-top"@) by { reveal_strlit("margin-right"); assert("margin-right"@.len() != "margin-top"@.len()); }
}

proof fn lemma_name_margin_bottom(name: Seq<u8>)
    requires
        byte_text(name) == "margin-bottom"@,
    ensures
        prop_named(name) == Some(Prop::MarginBottom),
{
    reveal_strlit("margin-bottom");
    assert("background-color"@ != "margin-bottom"@) by { reveal_strlit("background-color"); assert("background-color"@.len() != "margin-bottom"@.len()); }
    assert("border-color"@ != "margin-bottom"@) by { reveal_strlit("border-color"); assert("border-color"@.len() != "margin-bottom"@.len()); }
    assert("z-index"@ != "margin-bottom"@) by { reveal_strlit("z-index"); assert("z-index"@.len() != "margin-bottom"@.len()); }
    assert("display"@ != "margin-bottom"@) by { reveal_strlit("display"); assert("display"@.len() != "margin-bottom"@.len()); }
    assert("position"@ != "margin-bottom"@) by { reveal_strlit("position"); assert("position"@.len() != "margin-bottom"@.len()); }
    assert("overflow"@ != "margin-bottom"@) by { reveal_strlit("overflow"); assert("overflow"@.len() != "margin-bottom"@.len()); }
    assert("overflow-x"@ != "margin-bottom"@) by { reveal_strlit("overflow-x"); assert("overflow-x"@.len() != "margin-bottom"@.len()); }
    assert("overflow-y"@ != "margin-bottom"@) by { reveal_strlit("overflow-y"); assert("overflow-y"@.len() != "margin-bottom"@.len()); }
    assert("direction"@ != "margin-bottom"@) by { reveal_strlit("direction"); assert("direction"@.len() != "margin-bottom"@.len()); }
    assert("left"@ != "margin-bottom"@) by { reveal_strlit("left"); assert("left"@.len() != "margin-bottom"@.len()); }
    assert("right"@ != "margin-bottom"@) by { reveal_strlit("right"); assert("right"@.len() != "margin-bottom"@.len()); }
    assert("top"@ != "margin-bottom"@) by { reveal_strlit("top"); assert("top"@.len() != "margin-bottom"@.len()); }
    assert("bottom"@ != "margin-bottom"@) by { reveal_strlit("bottom"); assert("bottom"@.len() != "margin-bottom"@.len()); }
    assert("width"@ != "margin-bottom"@) by { reveal_strlit("width"); assert("width"@.len() != "margin-bottom"@.len()); }
    assert("height"@ != "margin-bottom"@) by { reveal_strlit("height"); assert("height"@.len() != "margin-bottom"@.len()); }
    assert("min-width"@ != "margin-bottom"@) by { reveal_strlit("min-width"); assert("min-width"@.len() != "margin-bottom"@.len()); }
    assert("min-height"@ != "margin-bottom"@) by { reveal_strlit("min-height"); assert("min-height"@.len() != "margin-bottom"@.len()); }
    assert("max-width"@ != "margin-bottom"@) by { reveal_strlit("max-width"); assert("max-width"@.len() != "margin-bottom"@.len()); }
    assert("max-height"@ != "margin-bottom"@) by { reveal_strlit("max-height"); assert("max-height"@.len() != "margin-bottom"@.len()); }
    assert("align-items"@ != "margin-bottom"@) by { reveal_strlit("align-items"); assert("align-items"@.len() != "margin-bottom"@.len()); }
    assert("justify-items"@ != "margin-bottom"@) by { reveal_strlit("justify-items"); assert("justify-items"@[0] != "margin-bottom"@[0]); }
    assert("align-self"@ != "margin-bottom"@) by { reveal_strlit("align-self"); assert("align-self"@.len() != "margin-bottom"@.len()); }
    assert("justify-self"@ != "margin-bottom"@) by { reveal_strlit("justify-self"); assert("justify-self"@.len() != "margin-bottom"@.len()); }
    assert("align-content"@ != "margin-bottom"@) by { reveal_strlit("align-content"); assert("align-content"@[0] != "margin-bottom"@[0]); }
    assert("justify-content"@ != "margin-bottom"@) by { reveal_strlit("justify-content"); assert("justify-content"@.len() != "margin-bottom"@.len()); }
    assert("margin"@ != "margin-bottom"@) by { reveal_strlit("margin"); assert("margin"@.len() != "margin-bottom"@.len()); }
    assert("margin-left"@ != "margin-bottom"@) by { reveal_strlit("margin-left"); assert("margin-left"@.len() != "margin-bottom"@.len()); }
    assert("margin-right"@ != "margin-bottom"@) by { reveal_strlit("margin-right"); assert("margin-right"@.len() != "margin-bottom"@.len()); }
    assert("margin-top"@ != "margin-bottom"@) by { reveal_strlit("margin-top"); assert("margin-top"@.len() != "margin-bottom"@.len()); }
}

proof fn lemma_name_padding(name: Seq<u8>)
    requires
        byte_text(name) == "padding"@,
    ensures
        prop_named(name) == Some(Prop::Padding),
{
    reveal_strlit("padding");
    assert("background-color"@ != "padding"@) by { reveal_strlit("background-color"); assert("background-color"@.len() != "padding"@.len()); }
    assert("border-color"@ != "padding"@) by { reveal_strlit("border-color"); assert("border-color"@.len() != "padding"@.len()); }
    assert("z-index"@ != "padding"@) by { reveal_strlit("z-index"); assert("z-index"@[0] != "padding"@[0]); }
    assert("display"@ != "padding"@) by { reveal_strlit("display"); assert("display"@[0] != "padding"@[0]); }
    assert("position"@ != "padding"@) by { reveal_strlit("position"); assert("position"@.len() != "padding"@.len()); }
    assert("overflow"@ != "padding"@) by { reveal_strlit("overflow"); assert("overflow"@.len() != "padding"@.len()); }
    assert("overflow-x"@ != "padding"@) by { reveal_strlit("overflow-x"); assert("overflow-x"@.len() != "padding"@.len()); }
    assert("overflow-y"@ != "padding"@) by { reveal_strlit("overflow-y"); assert("overflow-y"@.len() != "padding"@.len()); }
    assert("direction"@ != "padding"@) by { reveal_strlit("direction"); assert("direction"@.len() != "padding"@.len()); }
    assert("left"@ != "padding"@) by { reveal_strlit("left"); assert("left"@.len() != "padding"@.len()); }
    assert("right"@ != "padding"@) by { reveal_strlit("right"); assert("right"@.len() != "padding"@.len()); }
    assert("top"@ != "padding"@) by { reveal_strlit("top"); assert("top"@.len() != "padding"@.len()); }
    assert("bottom"@ != "padding"@) by { reveal_strlit("bottom"); assert("bottom"@.len() != "padding"@.len()); }
    assert("width"@ != "padding"@) by { reveal_strlit("width"); assert("width"@.len() != "padding"@.len()); }
    assert("height"@ != "padding"@) by { reveal_strlit("height"); assert("height"@.len() != "padding"@.len()); }
    assert("min-width"@ != "padding"@) by { reveal_strlit("min-width"); assert("min-width"@.len() != "padding"@.len()); }
    assert("min-height"@ != "padding"@) by { reveal_strlit("min-height"); assert("min-height"@.len() != "padding"@.len()); }
    assert("max-width"@ != "padding"@) by { reveal_strlit("max-width"); assert("max-width"@.len() != "padding"@.len()); }
    assert("max-height"@ != "padding"@) by { reveal_strlit("max-height"); assert("max-height"@.len() != "padding"@.len()); }
    assert("align-items"@ != "padding"@) by { reveal_strlit("align-items"); assert("align-items"@.len() != "padding"@.len()); }
    assert("justify-items"@ != "padding"@) by { reveal_strlit("justify-items"); assert("justify-items"@.len() != "padding"@.len()); }
    assert("align-self"@ != "padding"@) by { reveal_strlit("align-self"); assert("align-self"@.len() != "padding"@.len()); }
    assert("justify-self"@ != "padding"@) by { reveal_strlit("justify-self"); assert("justify-self"@.len() != "padding"@.len()); }
    assert("align-content"@ != "padding"@) by { reveal_strlit("align-content"); assert("align-content"@.len() != "padding"@.len()); }
    assert("justify-content"@ != "padding"@) by { reveal_strlit("justify-content"); assert("justify-content"@.len() != "padding"@.len()); }
    assert("margin"@ != "padding"@) by { reveal_strlit("margin"); assert("margin"@.len() != "padding"@.len()); }
    assert("margin-left"@ != "padding"@) by { reveal_strlit("margin-left"); assert("margin-left"@.len() != "padding"@.len()); }
    assert("margin-right"@ != "padding"@) by { reveal_strlit("margin-right"); assert("margin-right"@.len() != "padding"@.len()); }
    assert("margin-top"@ != "padding"@) by { reveal_strlit("margin-top"); assert("margin-top"@.len() != "padding"@.len()); }
    assert("margin-bottom"@ != "padding"@) by { reveal_strlit("margin-bottom"); assert("margin-bottom"@.len() != "padding"@.len()); }
}

proof fn lemma_name_padding_left(name: Seq<u8>)
    requires
        byte_text(name) == "padding-left"@,
    ensures
        prop_named(name) == Some(Prop::PaddingLeft),
{
    reveal_strlit("padding-left");
    assert("background-color"@ != "padding-left"@) by { reveal_strlit("background-color"); assert("background-color"@.len() != "padding-left"@.len()); }
    assert("border-color"@ != "padding-left"@) by { reveal_strlit("border-color"); assert("border-color"@[0] != "padding-left"@[0]); }
    assert("z-index"@ != "padding-left"@) by { reveal_strlit("z-index"); assert("z-index"@.len() != "padding-left"@.len()); }
    assert("display"@ != "padding-left"@) by { reveal_strlit("display"); assert("display"@.len() != "padding-left"@.len()); }
    assert("position"@ != "padding-left"@) by { reveal_strlit("position"); assert("position"@.len() != "padding-left"@.len()); }
    assert("overflow"@ != "padding-left"@) by { reveal_strlit("overflow"); assert("overflow"@.len() != "padding-left"@.len()); }
    assert("overflow-x"@ != "padding-left"@) by { reveal_strlit("overflow-x"); assert("overflow-x"@.len() != "padding-left"@.len()); }
    assert("overflow-y"@ != "padding-left"@) by { reveal_strlit("overflow-y"); assert("overflow-y"@.len() != "padding-left"@.len()); }
    assert("direction"@ != "padding-left"@) by { reveal_strlit("direction"); assert("direction"@.len() != "padding-left"@.len()); }
    assert("left"@ != "padding-left"@) by { reveal_strlit("left"); assert("left"@.len() != "padding-left"@.len()); }
    assert("right"@ != "padding-left"@) by { reveal_strlit("right"); assert("right"@.len() != "padding-left"@.len()); }
    assert("top"@ != "padding-left"@) by { reveal_strlit("top"); assert("top"@.len() != "padding-left"@.len()); }
    assert("bottom"@ != "padding-left"@) by { reveal_strlit("bottom"); assert("bottom"@.len() != "padding-left"@.len()); }
    assert("width"@ != "padding-left"@) by { reveal_strlit("width"); assert("width"@.len() != "padding-left"@.len()); }
    assert("height"@ != "padding-left"@) by { reveal_strlit("height"); assert("height"@.len() != "padding-left"@.len()); }
    assert("min-width"@ != "padding-left"@) by { reveal_strlit("min-width"); assert("min-width"@.len() != "padding-left"@.len()); }
    assert("min-height"@ != "padding-left"@) by { reveal_strlit("min-height"); assert("min-height"@.len() != "padding-left"@.len()); }
    assert("max-width"@ != "padding-left"@) by { reveal_strlit("max-width"); assert("max-width"@.len() != "padding-left"@.len()); }
    assert("max-height"@ != "padding-left"@) by { reveal_strlit("max-height"); assert("max-height"@.len() != "padding-left"@.len()); }
    assert("align-items"@ != "padding-left"@) by { reveal_strlit("align-items"); assert("align-items"@.len() != "padding-left"@.len()); }
    assert("justify-items"@ != "padding-left"@) by { reveal_strlit("justify-items"); assert("justify-items"@.len() != "padding-left"@.len()); }
    assert("align-self"@ != "padding-left"@) by { reveal_strlit("align-self"); assert("align-self"@.len() != "padding-left"@.len()); }
    assert("justify-self"@ != "padding-left"@) by { reveal_strlit("justify-self"); assert("justify-self"@[0] != "padding-left"@[0]); }
    assert("align-content"@ != "padding-left"@) by { reveal_strlit("align-content"); assert("align-content"@.len() != "padding-left"@.len()); }
    assert("justify-content"@ != "padding-left"@) by { reveal_strlit("justify-content"); assert("justify-content"@.len() != "padding-left"@.len()); }
    assert("margin"@ != "padding-left"@) by { reveal_strlit("margin"); assert("margin"@.len() != "padding-left"@.len()); }
    assert("margin-left"@ != "padding-left"@) by { reveal_strlit("margin-left"); assert("margin-left"@.len() != "padding-left"@.len()); }
    assert("margin-right"@ != "padding-left"@) by { reveal_strlit("margin-right"); assert("margin-right"@[0] != "padding-left"@[0]); }
    assert("margin-top"@ != "padding-left"@) by { reveal_strlit("margin-top"); assert("margin-top"@.len() != "padding-left"@.len()); }
    assert("margin-bottom"@ != "padding-left"@) by { reveal_strlit("margin-bottom"); assert("margin-bottom"@.len() != "padding-left"@.len()); }
    assert("padding"@ != "padding-left"@) by { reveal_strlit("padding"); assert("padding"@.len() != "padding-left"@.len()); }
}

proof fn lemma_name_padding_right(name: Seq<u8>)
    requires
        byte_text(name) == "padding-right"@,
    ensures
        prop_named(name) == Some(Prop::PaddingRight),
{
    reveal_strlit("padding-right");
    assert("background-color"@ != "padding-right"@) by { reveal_strlit("background-color"); assert("background-color"@.len() != "padding-right"@.len()); }
    assert("border-color"@ != "padding-right"@) by { reveal_strlit("border-color"); assert("border-color"@.len() != "padding-right"@.len()); }
    assert("z-index"@ != "padding-right"@) by { reveal_strlit("z-index"); assert("z-index"@.len() != "padding-right"@.len()); }
    assert("display"@ != "padding-right"@) by { reveal_strlit("display"); assert("display"@.len() != "padding-right"@.len()); }
    assert("position"@ != "padding-right"@) by { reveal_strlit("position"); assert("position"@.len() != "padding-right"@.len()); }
    assert("overflow"@ != "padding-right"@) by { reveal_strlit("overflow"); assert("overflow"@.len() != "padding-right"@.len()); }
    assert("overflow-x"@ != "padding-right"@) by { reveal_strlit("overflow-x"); assert("overflow-x"@.len() != "padding-right"@.len()); }
    assert("overflow-y"@ != "padding-right"@) by { reveal_strlit("overflow-y"); assert("overflow-y"@.len() != "padding-right"@.len()); }
    assert("direction"@ != "padding-right"@) by { reveal_strlit("direction"); assert("direction"@.len() != "padding-right"@.len()); }
    assert("left"@ != "padding-right"@) by { reveal_strlit("left"); assert("left"@.len() != "padding-right"@.len()); }
    assert("right"@ != "padding-right"@) by { reveal_strlit("right"); assert("right"@.len() != "padding-right"@.len()); }
    assert("top"@ != "padding-right"@) by { reveal_strlit("top"); assert("top"@.len() != "padding-right"@.len()); }
    assert("bottom"@ != "padding-right"@) by { reveal_strlit("bottom"); assert("bottom"@.len() != "padding-right"@.len()); }
    assert("width"@ != "padding-right"@) by { reveal_strlit("width"); assert("width"@.len() != "padding-right"@.len()); }
    assert("height"@ != "padding-right"@) by { reveal_strlit("height"); assert("height"@.len() != "padding-right"@.len()); }
    assert("min-width"@ != "padding-right"@) by { reveal_strlit("min-width"); assert("min-width"@.len() != "padding-right"@.len()); }
    assert("min-height"@ != "padding-right"@) by { reveal_strlit("min-height"); assert("min-height"@.len() != "padding-right"@.len()); }
    assert("max-width"@ != "padding-right"@) by { reveal_strlit("max-width"); assert("max-width"@.len() != "padding-right"@.len()); }
    assert("max-height"@ != "padding-right"@) by { reveal_strlit("max-height"); assert("max-height"@.len() != "padding-right"@.len()); }
    assert("align-items"@ != "padding-right"@) by { reveal_strlit("align-items"); assert("align-items"@.len() != "padding-right"@.len()); }
    assert("justify-items"@ != "padding-right"@) by { reveal_strlit("justify-items"); assert("justify-items"@[0] != "padding-right"@[0]); }
    assert("align-self"@ != "padding-right"@) by { reveal_strlit("align-self"); assert("align-self"@.len() != "padding-right"@.len()); }
    assert("justify-self"@ != "padding-right"@) by { reveal_strlit("justify-self"); assert("justify-self"@.len() != "padding-right"@.len()); }
    assert("align-content"@ != "padding-right"@) by { reveal_strlit("align-content"); assert("align-content"@[0] != "padding-right"@[0]); }
    assert("justify-content"@ != "padding-right"@) by { reveal_strlit("justify-content"); assert("justify-content"@.len() != "padding-right"@.len()); }
    assert("margin"@ != "padding-right"@) by { reveal_strlit("margin"); assert("margin"@.len() != "padding-right"@.len()); }
    assert("margin-left"@ != "padding-right"@) by { reveal_strlit("margin-left"); assert("margin-left"@.len() != "padding-right"@.len()); }
    assert("margin-right"@ != "padding-right"@) by { reveal_strlit("margin-right"); assert("margin-right"@.len() != "padding-right"@.len()); }
    assert("margin-top"@ != "padding-right"@) by { reveal_strlit("margin-top"); assert("margin-top"@.len() != "padding-right"@.len()); }
    assert("margin-bottom"@ != "padding-right"@) by { reveal_strlit("margin-bottom"); assert("margin-bottom"@[0] != "padding-right"@[0]); }
    assert("padding"@ != "padding-right"@) by { reveal_strlit("padding"); assert("padding"@.len() != "padding-right"@.len()); }
    assert("padding-left"@ != "padding-right"@) by { reveal_strlit("padding-left"); assert("padding-left"@.len() != "padding-right"@.len()); }
}

proof fn lemma_name_padding_top(name: Seq<u8>)
    requires
        byte_text(name) == "padding-top"@,
    ensures
        prop_named(name) == Some(Prop::PaddingTop),
{
    reveal_strlit("padding-top");
    assert("background-color"@ != "padding-top"@) by { reveal_strlit("background-color"); assert("background-color"@.len() != "padding-top"@.len()); }
    assert("border-color"@ != "padding-top"@) by { reveal_strlit("border-color"); assert("border-color"@.len() != "padding-top"@.len()); }
    assert("z-index"@ != "padding-top"@) by { reveal_strlit("z-index"); assert("z-index"@.len() != "padding-top"@.len()); }
    assert("display"@ != "padding-top"@) by { reveal_strlit("display"); assert("display"@.len() != "padding-top"@.len()); }
    assert("position"@ != "padding-top"@) by { reveal_strlit("position"); assert("position"@.len() != "padding-top"@.len()); }
    assert("overflow"@ != "padding-top"@) by { reveal_strlit("overflow"); assert("overflow"@.len() != "padding-top"@.len()); }
    assert("overflow-x"@ != "padding-top"@) by { reveal_strlit("overflow-x"); assert("overflow-x"@.len() != "padding-top"@.len()); }
    assert("overflow-y"@ != "padding-top"@) by { reveal_strlit("overflow-y"); assert("overflow-y"@.len() != "padding-top"@.len()); }
    assert("direction"@ != "padding-top"@) by { reveal_strlit("direction"); assert("direction"@.len() != "padding-top"@.len()); }
    assert("left"@ != "padding-top"@) by { reveal_strlit("left"); assert("left"@.len() != "padding-top"@.len()); }
    assert("right"@ != "padding-top"@) by { reveal_strlit("right"); assert("right"@.len() != "padding-top"@.len()); }
    assert("top"@ != "padding-top"@) by { reveal_strlit("top"); assert("top"@.len() != "padding-top"@.len()); }
    assert("bottom"@ != "padding-top"@) by { reveal_strlit("bottom"); assert("bottom"@.len() != "padding-top"@.len()); }
    assert("width"@ != "padding-top"@) by { reveal_strlit("width"); assert("width"@.len() != "padding-top"@.len()); }
    assert("height"@ != "padding-top"@) by { reveal_strlit("height"); assert("height"@.len() != "padding-top"@.len()); }
    assert("min-width"@ != "padding-top"@) by { reveal_strlit("min-width"); assert("min-width"@.len() != "padding-top"@.len()); }
    assert("min-height"@ != "padding-top"@) by { reveal_strlit("min-height"); assert("min-height"@.len() != "padding-top"@.len()); }
    assert("max-width"@ != "padding-top"@) by { reveal_strlit("max-width"); assert("max-width"@.len() != "padding-top"@.len()); }
    assert("max-height"@ != "padding-top"@) by { reveal_strlit("max-height"); assert("max-height"@.len() != "padding-top"@.len()); }
    assert("align-items"@ != "padding-top"@) by { reveal_strlit("align-items"); assert("align-items"@[0] != "padding-top"@[0]); }
    assert("justify-items"@ != "padding-top"@) by { reveal_strlit("justify-items"); assert("justify-items"@.len() != "padding-top"@.len()); }
    assert("align-self"@ != "padding-top"@) by { reveal_strlit("align-self"); assert("align-self"@.len() != "padding-top"@.len()); }
    assert("justify-self"@ != "padding-top"@) by { reveal_strlit("justify-self"); assert("justify-self"@.len() != "padding-top"@.len()); }
    assert("align-content"@ != "padding-top"@) by { reveal_strlit("align-content"); assert("align-content"@.len() != "padding-top"@.len()); }
    assert("justify-content"@ != "padding-top"@) by { reveal_strlit("justify-content"); assert("justify-content"@.len() != "padding-top"@.len()); }
    assert("margin"@ != "padding-top"@) by { reveal_strlit("margin"); assert("margin"@.len() != "padding-top"@.len()); }
    assert("margin-left"@ != "padding-top"@) by { reveal_strlit("margin-left"); assert("margin-left"@[0] != "padding-top"@[0]); }
    assert("margin-right"@ != "padding-top"@) by { reveal_strlit("margin-right"); assert("margin-right"@.len() != "padding-top"@.len()); }
    assert("margin-top"@ != "padding-top"@) by { reveal_strlit("margin-top"); assert("margin-top"@.len() != "padding-top"@.len()); }
    assert("margin-bottom"@ != "padding-top"@) by { reveal_strlit("margin-bottom"); assert("margin-bottom"@.len() != "padding-top"@.len()); }
    assert("padding"@ != "padding-top"@) by { reveal_strlit("padding"); assert("padding"@.len() != "padding-top"@.len()); }
    assert("padding-left"@ != "padding-top"@) by { reveal_strlit("padding-left"); assert("padding-left"@.len() != "padding-top"@.len()); }
    assert("padding-right"@ != "padding-top"@) by { reveal_strlit("padding-right"); assert("padding-right"@.len() != "padding-top"@.len()); }
}

proof fn lemma_name_padding_bottom(name: Seq<u8>)
    requires
        byte_text(name) == "padding-bottom"@,
    ensures
        prop_named(name) == Some(Prop::PaddingBottom),
{
    reveal_strlit("padding-bottom");
    assert("background-color"@ != "padding-bottom"@) by { reveal_strlit("background-color"); assert("background-color"@.len() != "padding-bottom"@.len()); }
    assert("border-color"@ != "padding-bottom"@) by { reveal_strlit("border-color"); assert("border-color"@.len() != "padding-bottom"@.len()); }
    assert("z-index"@ != "padding-bottom"@) by { reveal_strlit("z-index"); assert("z-index"@.len() != "padding-bottom"@.len()); }
    assert("display"@ != "padding-bottom"@) by { reveal_strlit("display"); assert("display"@.len() != "padding-bottom"@.len()); }
    assert("position"@ != "padding-bottom"@) by { reveal_strlit("position"); assert("position"@.len() != "padding-bottom"@.len()); }
    assert("overflow"@ != "padding-bottom"@) by { reveal_strlit("overflow"); assert("overflow"@.len() != "padding-bottom"@.len()); }
    assert("overflow-x"@ != "padding-bottom"@) by { reveal_strlit("overflow-x"); assert("overflow-x"@.len() != "padding-bottom"@.len()); }
    assert("overflow-y"@ != "padding-bottom"@) by { reveal_strlit("overflow-y"); assert("overflow-y"@.len() != "padding-bottom"@.len()); }
    assert("direction"@ != "padding-bottom"@) by { reveal_strlit("direction"); assert("direction"@.len() != "padding-bottom"@.len()); }
    assert("left"@ != "padding-bottom"@) by { reveal_strlit("left"); assert("left"@.len() != "padding-bottom"@.len()); }
    assert("right"@ != "padding-bottom"@) by { reveal_strlit("right"); assert("right"@.len() != "padding-bottom"@.len()); }
    assert("top"@ != "padding-bottom"@) by { reveal_strlit("top"); assert("top"@.len() != "padding-bottom"@.len()); }
    assert("bottom"@ != "padding-bottom"@) by { reveal_strlit("bottom"); assert("bottom"@.len() != "padding-bottom"@.len()); }
    assert("width"@ != "padding-bottom"@) by { reveal_strlit("width"); assert("width"@.len() != "padding-bottom"@.len()); }
    assert("height"@ != "padding-bottom"@) by { reveal_strlit("height"); assert("height"@.len() != "padding-bottom"@.len()); }
    assert("min-width"@ != "padding-bottom"@) by { reveal_strlit("min-width"); assert("min-width"@.len() != "padding-bottom"@.len()); }
    assert("min-height"@ != "padding-bottom"@) by { reveal_strlit("min-height"); assert("min-height"@.len() != "padding-bottom"@.len()); }
    assert("max-width"@ != "padding-bottom"@) by { reveal_strlit("max-width"); assert("max-width"@.len() != "padding-bottom"@.len()); }
    assert("max-height"@ != "padding-bottom"@) by { reveal_strlit("max-height"); assert("max-height"@.len() != "padding-bottom"@.len()); }
    assert("align-items"@ != "padding-bottom"@) by { reveal_strlit("align-items"); assert("align-items"@.len() != "padding-bottom"@.len()); }
    assert("justify-items"@ != "padding-bottom"@) by { reveal_strlit("justify-items"); assert("justify-items"@.len() != "padding-bottom"@.len()); }
    assert("align-self"@ != "padding-bottom"@) by { reveal_strlit("align-self"); assert("align-self"@.len() != "padding-bottom"@.len()); }
    assert("justify-self"@ != "padding-bottom"@) by { reveal_strlit("justify-self"); assert("justify-self"@.len() != "padding-bottom"@.len()); }
    assert("align-content"@ != "padding-bottom"@) by { reveal_strlit("align-content"); assert("align-content"@.len() != "padding-bottom"@.len()); }
    assert("justify-content"@ != "padding-bottom"@) by { reveal_strlit("justify-content"); assert("justify-content"@.len() != "padding-bottom"@.len()); }
    assert("margin"@ != "padding-bottom"@) by { reveal_strlit("margin"); assert("margin"@.len() != "padding-bottom"@.len()); }
    assert("margin-left"@ != "padding-bottom"@) by { reveal_strlit("margin-left"); assert("margin-left"@.len() != "padding-bottom"@.len()); }
    assert("margin-right"@ != "padding-bottom"@) by { reveal_strlit("margin-right"); assert("margin-right"@.len() != "padding-bottom"@.len()); }
    assert("margin-top"@ != "padding-bottom"@) by { reveal_strlit("margin-top"); assert("margin-top"@.len() != "padding-bottom"@.len()); }
    assert("margin-bottom"@ != "padding-bottom"@) by { reveal_strlit("margin-bottom"); assert("margin-bottom"@.len() != "padding-bottom"@.len()); }
    assert("padding"@ != "padding-bottom"@) by { reveal_strlit("padding"); assert("padding"@.len() != "padding-bottom"@.len()); }
    assert("padding-left"@ != "padding-bottom"@) by { reveal_strlit("padding-left"); assert("padding-left"@.len() != "padding-bottom"@.len()); }
    assert("padding-right"@ != "padding-bottom"@) by { reveal_strlit("padding-right"); assert("padding-right"@.len() != "padding-bottom"@.len()); }
    assert("padding-top"@ != "padding-bottom"@) by { reveal_strlit("padding-top"); assert("padding-top"@.len() != "padding-bottom"@.len()); }
}

proof fn lemma_name_border(name: Seq<u8>)
    requires
        byte_text(name) == "border"@,
    ensures
        prop_named(name) == Some(Prop::Border),
{
    reveal_strlit("border");
    assert("background-color"@ != "border"@) by { reveal_strlit("background-color"); assert("background-color"@.len() != "border"@.len()); }
    assert("border-color"@ != "border"@) by { reveal_strlit("border-color"); assert("border-color"@.len() != "border"@.len()); }
    assert("z-index"@ != "border"@) by { reveal_strlit("z-index"); assert("z-index"@.len() != "border"@.len()); }
    assert("display"@ != "border"@) by { reveal_strlit("display"); assert("display"@.len() != "border"@.len()); }
    assert("position"@ != "border"@) by { reveal_strlit("position"); assert("position"@.len() != "border"@.len()); }
    assert("overflow"@ != "border"@) by { reveal_strlit("overflow"); assert("overflow"@.len() != "border"@.len()); }
    assert("overflow-x"@ != "border"@) by { reveal_strlit("overflow-x"); assert("overflow-x"@.len() != "border"@.len()); }
    assert("overflow-y"@ != "border"@) by { reveal_strlit("overflow-y"); assert("overflow-y"@.len() != "border"@.len()); }
    assert("direction"@ != "border"@) by { reveal_strlit("direction"); assert("direction"@.len() != "border"@.len()); }
    assert("left"@ != "border"@) by { reveal_strlit("left"); assert("left"@.len() != "border"@.len()); }
    assert("right"@ != "border"@) by { reveal_strlit("right"); assert("right"@.len() != "border"@.len()); }
    assert("top"@ != "border"@) by { reveal_strlit("top"); assert("top"@.len() != "border"@.len()); }
    assert("bottom"@ != "border"@) by { reveal_strlit("bottom"); assert("bottom"@[2] != "border"@[2]); }
    assert("width"@ != "border"@) by { reveal_strlit("width"); assert("width"@.len() != "border"@.len()); }
    assert("height"@ != "border"@) by { reveal_strlit("height"); assert("height"@[0] != "border"@[0]); }
    assert("min-width"@ != "border"@) by { reveal_strlit("min-width"); assert("min-width"@.len() != "border"@.len()); }
    assert("min-height"@ != "border"@) by { reveal_strlit("min-height"); assert("min-height"@.len() != "border"@.len()); }
    assert("max-width"@ != "border"@) by { reveal_strlit("max-width"); assert("max-width"@.len() != "border"@.len()); }
    assert("max-height"@ != "border"@) by { reveal_strlit("max-height"); assert("max-height"@.len() != "border"@.len()); }
    assert("align-items"@ != "border"@) by { reveal_strlit("align-items"); assert("align-items"@.len() != "border"@.len()); }
    assert("justify-items"@ != "border"@) by { reveal_strlit("justify-items"); assert("justify-items"@.len() != "border"@.len()); }
    assert("align-self"@ != "border"@) by { reveal_strlit("align-self"); assert("align-self"@.len() != "border"@.len()); }
    assert("justify-self"@ != "border"@) by { reveal_strlit("justify-self"); assert("justify-self"@.len() != "border"@.len()); }
    assert("align-content"@ != "border"@) by { reveal_strlit("align-content"); assert("align-content"@.len() != "border"@.len()); }
    assert("justify-content"@ != "border"@) by { reveal_strlit("justify-content"); assert("justify-content"@.len() != "border"@.len()); }
    assert("margin"@ != "border"@) by { reveal_strlit("margin"); assert("margin"@[0] != "border"@[0]); }
    assert("margin-left"@ != "border"@) by { reveal_strlit("margin-left"); assert("margin-left"@.len() != "border"@.len()); }
    assert("margin-right"@ != "border"@) by { reveal_strlit("margin-right"); assert("margin-right"@.len() != "border"@.len()); }
    assert("margin-top"@ != "border"@) by { reveal_strlit("margin-top"); assert("margin-top"@.len() != "border"@.len()); }
    assert("margin-bottom"@ != "border"@) by { reveal_strlit("margin-bottom"); assert("margin-bottom"@.len() != "border"@.len()); }
    assert("padding"@ != "border"@) by { reveal_strlit("padding"); assert("padding"@.len() != "border"@.len()); }
    assert("padding-left"@ != "border"@) by { reveal_strlit("padding-left"); assert("padding-left"@.len() != "border"@.len()); }
    assert("padding-right"@ != "border"@) by { reveal_strlit("padding-right"); assert("padding-right"@.len() != "border"@.len()); }
    assert("padding-top"@ != "border"@) by { reveal_strlit("padding-top"); assert("padding-top"@.len() != "border"@.len()); }
    assert("padding-bottom"@ != "border"@) by { reveal_strlit("padding-bottom"); assert("padding-bottom"@.len() != "border"@.len()); }
}

proof fn lemma_name_border_left(name: Seq<u8>)
    requires
        byte_text(name) == "border-left"@,
    ensures
        prop_named(name) == Some(Prop::BorderLeft),
{
    reveal_strlit("border-left");
    assert("background-color"@ != "border-left"@) by { reveal_strlit("background-color"); assert("background-color"@.len() != "border-left"@.len()); }
    assert("border-color"@ != "border-left"@) by { reveal_strlit("border-color"); assert("border-color"@.len() != "border-left"@.len()); }
    assert("z-index"@ != "border-left"@) by { reveal_strlit("z-index"); assert("z-index"@.len() != "border-left"@.len()); }
    assert("display"@ != "border-left"@) by { reveal_strlit("display"); assert("display"@.len() != "border-left"@.len()); }
    assert("position"@ != "border-left"@) by { reveal_strlit("position"); assert("position"@.len() != "border-left"@.len()); }
    assert("overflow"@ != "border-left"@) by { reveal_strlit("overflow"); assert("overflow"@.len() != "border-left"@.len()); }
    assert("overflow-x"@ != "border-left"@) by { reveal_strlit("overflow-x"); assert("overflow-x"@.len() != "border-left"@.len()); }
    assert("overflow-y"@ != "border-left"@) by { reveal_strlit("overflow-y"); assert("overflow-y"@.len() != "border-left"@.len()); }
    assert("direction"@ != "border-left"@) by { reveal_strlit("direction"); assert("direction"@.len() != "border-left"@.len()); }
    assert("left"@ != "border-left"@) by { reveal_strlit("left"); assert("left"@.len() != "border-left"@.len()); }
    assert("right"@ != "border-left"@) by { reveal_strlit("right"); assert("right"@.len() != "border-left"@.len()); }
    assert("top"@ != "border-left"@) by { reveal_strlit("top"); assert("top"@.len() != "border-left"@.len()); }
    assert("bottom"@ != "border-left"@) by { reveal_strlit("bottom"); assert("bottom"@.len() != "border-left"@.len()); }
    assert("width"@ != "border-left"@) by { reveal_strlit("width"); assert("width"@.len() != "border-left"@.len()); }
    assert("height"@ != "border-left"@) by { reveal_strlit("height"); assert("height"@.len() != "border-left"@.len()); }
    assert("min-width"@ != "border-left"@) by { reveal_strlit("min-width"); assert("min-width"@.len() != "border-left"@.len()); }
    assert("min-height"@ != "border-left"@) by { reveal_strlit("min-height"); assert("min-height"@.len() != "border-left"@.len()); }
    assert("max-width"@ != "border-left"@) by { reveal_strlit("max-width"); assert("max-width"@.len() != "border-left"@.len()); }
    assert("max-height"@ != "border-left"@) by { reveal_strlit("max-height"); assert("max-height"@.len() != "border-left"@.len()); }
    assert("align-items"@ != "border-left"@) by { reveal_strlit("align-items"); assert("align-items"@[0] != "border-left"@[0]); }
    assert("justify-items"@ != "border-left"@) by { reveal_strlit("justify-items"); assert("justify-items"@.len() != "border-left"@.len()); }
    assert("align-self"@ != "border-left"@) by { reveal_strlit("align-self"); assert("align-self"@.len() != "border-left"@.len()); }
    assert("justify-self"@ != "border-left"@) by { reveal_strlit("justify-self"); assert("justify-self"@.len() != "border-left"@.len()); }
    assert("align-content"@ != "border-left"@) by { reveal_strlit("align-content"); assert("align-content"@.len() != "border-left"@.len()); }
    assert("justify-content"@ != "border-left"@) by { reveal_strlit("justify-content"); assert("justify-content"@.len() != "border-left"@.len()); }
    assert("margin"@ != "border-left"@) by { reveal_strlit("margin"); assert("margin"@.len() != "border-left"@.len()); }
    assert("margin-left"@ != "border-left"@) by { reveal_strlit("margin-left"); assert("margin-left"@[0] != "border-left"@[0]); }
    assert("margin-right"@ != "border-left"@) by { reveal_strlit("margin-right"); assert("margin-right"@.len() != "border-left"@.len()); }
    assert("margin-top"@ != "border-left"@) by { reveal_strlit("margin-top"); assert("margin-top"@.len() != "border-left"@.len()); }
    assert("margin-bottom"@ != "border-left"@) by { reveal_strlit("margin-bottom"); assert("margin-bottom"@.len() != "border-left"@.len()); }
    assert("padding"@ != "border-left"@) by { reveal_strlit("padding"); assert("padding"@.len() != "border-left"@.len()); }
    assert("padding-left"@ != "border-left"@) by { reveal_strlit("padding-left"); assert("padding-left"@.len() != "border-left"@.len()); }
    assert("padding-right"@ != "border-left"@) by { reveal_strlit("padding-right"); assert("padding-right"@.len() != "border-left"@.len()); }
    assert("padding-top"@ != "border-left"@) by { reveal_strlit("padding-top"); assert("padding-top"@[0] != "border-left"@[0]); }
    assert("padding-bottom"@ != "border-left"@) by { reveal_strlit("padding-bottom"); assert("padding-bottom"@.len() != "border-left"@.len()); }
    assert("border"@ != "border-left"@) by { reveal_strlit("border"); assert("border"@.len() != "border-left"@.len()); }
}

proof fn lemma_name_border_right(name: Seq<u8>)
    requires
        byte_text(name) == "border-right"@,
    ensures
        prop_named(name) == Some(Prop::BorderRight),
{
    reveal_strlit("border-right");
    assert("background-color"@ != "border-right"@) by { reveal_strlit("background-color"); assert("background-color"@.len() != "border-right"@.len()); }
    assert("border-color"@ != "border-right"@) by { reveal_strlit("border-color"); assert("border-color"@[7] != "border-right"@[7]); }
    assert("z-index"@ != "border-right"@) by { reveal_strlit("z-index"); assert("z-index"@.len() != "border-right"@.len()); }
    assert("display"@ != "border-right"@) by { reveal_strlit("display"); assert("display"@.len() != "border-right"@.len()); }
    assert("position"@ != "border-right"@) by { reveal_strlit("position"); assert("position"@.len() != "border-right"@.len()); }
    assert("overflow"@ != "border-right"@) by { reveal_strlit("overflow"); assert("overflow"@.len() != "border-right"@.len()); }
    assert("overflow-x"@ != "border-right"@) by { reveal_strlit("overflow-x"); assert("overflow-x"@.len() != "border-right"@.len()); }
    assert("overflow-y"@ != "border-right"@) by { reveal_strlit("overflow-y"); assert("overflow-y"@.len() != "border-right"@.len()); }
    assert("direction"@ != "border-right"@) by { reveal_strlit("direction"); assert("direction"@.len() != "border-right"@.len()); }
    assert("left"@ != "border-right"@) by { reveal_strlit("left"); assert("left"@.len() != "border-right"@.len()); }
    assert("right"@ != "border-right"@) by { reveal_strlit("right"); assert("right"@.len() != "border-right"@.len()); }
    assert("top"@ != "border-right"@) by { reveal_strlit("top"); assert("top"@.len() != "border-right"@.len()); }
    assert("bottom"@ != "border-right"@) by { reveal_strlit("bottom"); assert("bottom"@.len() != "border-right"@.len()); }
    assert("width"@ != "border-right"@) by { reveal_strlit("width"); assert("width"@.len() != "border-right"@.len()); }
    assert("height"@ != "border-right"@) by { reveal_strlit("height"); assert("height"@.len() != "border-right"@.len()); }
    assert("min-width"@ != "border-right"@) by { reveal_strlit("min-width"); assert("min-width"@.len() != "border-right"@.len()); }
    assert("min-height"@ != "border-right"@) by { reveal_strlit("min-height"); assert("min-height"@.len() != "border-right"@.len()); }
    assert("max-width"@ != "border-right"@) by { reveal_strlit("max-width"); assert("max-width"@.len() != "border-right"@.len()); }
    assert("max-height"@ != "border-right"@) by { reveal_strlit("max-height"); assert("max-height"@.len() != "border-right"@.len()); }
    assert("align-items"@ != "border-right"@) by { reveal_strlit("align-items"); assert("align-items"@.len() != "border-right"@.len()); }
    assert("justify-items"@ != "border-right"@) by { reveal_strlit("justify-items"); assert("justify-items"@.len() != "border-right"@.len()); }
    assert("align-self"@ != "border-right"@) by { reveal_strlit("align-self"); assert("align-self"@.len() != "border-right"@.len()); }
    assert("justify-self"@ != "border-right"@) by { reveal_strlit("justify-self"); assert("justify-self"@[0] != "border-right"@[0]); }
    assert("align-content"@ != "border-right"@) by { reveal_strlit("align-content"); assert("align-content"@.len() != "border-right"@.len()); }
    assert("justify-content"@ != "border-right"@) by { reveal_strlit("justify-content"); assert("justify-content"@.len() != "border-right"@.len()); }
    assert("margin"@ != "border-right"@) by { reveal_strlit("margin"); assert("margin"@.len() != "border-right"@.len()); }
    assert("margin-left"@ != "border-right"@) by { reveal_strlit("margin-left"); assert("margin-left"@.len() != "border-right"@.len()); }
    assert("margin-right"@ != "border-right"@) by { reveal_strlit("margin-right"); assert("margin-right"@[0] != "border-right"@[0]); }
    assert("margin-top"@ != "border-right"@) by { reveal_strlit("margin-top"); assert("margin-top"@.len() != "border-right"@.len()); }
    assert("margin-bottom"@ != "border-right"@) by { reveal_strlit("margin-bottom"); assert("margin-bottom"@.len() != "border-right"@.len()); }
    assert("padding"@ != "border-right"@) by { reveal_strlit("padding"); assert("padding"@.len() != "border-right"@.len()); }
    assert("padding-left"@ != "border-right"@) by { reveal_strlit("padding-left"); assert("padding-left"@[0] != "border-right"@[0]); }
    assert("padding-right"@ != "border-right"@) by { reveal_strlit("padding-right"); assert("padding-right"@.len() != "border-right"@.len()); }
    assert("padding-top"@ != "border-right"@) by { reveal_strlit("padding-top"); assert("padding-top"@.len() != "border-right"@.len()); }
    assert("padding-bottom"@ != "border-right"@) by { reveal_strlit("padding-bottom"); assert("padding-bottom"@.len() != "border-right"@.len()); }
    assert("border"@ != "border-right"@) by { reveal_strlit("border"); assert("border"@.len() != "border-right"@.len()); }
    assert("border-left"@ != "border-right"@) by { reveal_strlit("border-left"); assert("border-left"@.len() != "border-right"@.len()); }
}

proof fn lemma_name_border_top(name: Seq<u8>)
    requires
        byte_text(name) == "border-top"@,
    ensures
        prop_named(name) == Some(Prop::BorderTop),
{
    reveal_strlit("border-top");
    assert("background-color"@ != "border-top"@) by { reveal_strlit("background-color"); assert("background-color"@.len() != "border-top"@.len()); }
    assert("border-color"@ != "border-top"@) by { reveal_strlit("border-color"); assert("border-color"@.len() != "border-top"@.len()); }
    assert("z-index"@ != "border-top"@) by { reveal_strlit("z-index"); assert("z-index"@.len() != "border-top"@.len()); }
    assert("display"@ != "border-top"@) by { reveal_strlit("display"); assert("display"@.len() != "border-top"@.len()); }
    assert("position"@ != "border-top"@) by { reveal_strlit("position"); assert("position"@.len() != "border-top"@.len()); }
    assert("overflow"@ != "border-top"@) by { reveal_strlit("overflow"); assert("overflow"@.len() != "border-top"@.len()); }
    assert("overflow-x"@ != "border-top"@) by { reveal_strlit("overflow-x"); assert("overflow-x"@[0] != "border-top"@[0]); }
    assert("overflow-y"@ != "border-top"@) by { reveal_strlit("overflow-y"); assert("overflow-y"@[0] != "border-top"@[0]); }
    assert("direction"@ != "border-top"@) by { reveal_strlit("direction"); assert("direction"@.len() != "border-top"@.len()); }
    assert("left"@ != "border-top"@) by { reveal_strlit("left"); assert("left"@.len() != "border-top"@.len()); }
    assert("right"@ != "border-top"@) by { reveal_strlit("right"); assert("right"@.len() != "border-top"@.len()); }
    assert("top"@ != "border-top"@) by { reveal_strlit("top"); assert("top"@.len() != "border-top"@.len()); }
    assert("bottom"@ != "border-top"@) by { reveal_strlit("bottom"); assert("bottom"@.len() != "border-top"@.len()); }
    assert("width"@ != "border-top"@) by { reveal_strlit("width"); assert("width"@.len() != "border-top"@.len()); }
    assert("height"@ != "border-top"@) by { reveal_strlit("height"); assert("height"@.len() != "border-top"@.len()); }
    assert("min-width"@ != "border-top"@) by { reveal_strlit("min-width"); assert("min-width"@.len() != "border-top"@.len()); }
    assert("min-height"@ != "border-top"@) by { reveal_strlit("min-height"); assert("min-height"@[0] != "border-top"@[0]); }
    assert("max-width"@ != "border-top"@) by { reveal_strlit("max-width"); assert("max-width"@.len() != "border-top"@.len()); }
    assert("max-height"@ != "border-top"@) by { reveal_strlit("max-height"); assert("max-height"@[0] != "border-top"@[0]); }
    assert("align-items"@ != "border-top"@) by { reveal_strlit("align-items"); assert("align-items"@.len() != "border-top"@.len()); }
    assert("justify-items"@ != "border-top"@) by { reveal_strlit("justify-items"); assert("justify-items"@.len() != "border-top"@.len()); }
    assert("align-self"@ != "border-top"@) by { reveal_strlit("align-self"); assert("align-self"@[0] != "border-top"@[0]); }
    assert("justify-self"@ != "border-top"@) by { reveal_strlit("justify-self"); assert("justify-self"@.len() != "border-top"@.len()); }
    assert("align-content"@ != "border-top"@) by { reveal_strlit("align-content"); assert("align-content"@.len() != "border-top"@.len()); }
    assert("justify-content"@ != "border-top"@) by { reveal_strlit("justify-content"); assert("justify-content"@.len() != "border-top"@.len()); }
    assert("margin"@ != "border-top"@) by { reveal_strlit("margin"); assert("margin"@.len() != "border-top"@.len()); }
    assert("margin-left"@ != "border-top"@) by { reveal_strlit("margin-left"); assert("margin-left"@.len() != "border-top"@.len()); }
    assert("margin-right"@ != "border-top"@) by { reveal_strlit("margin-right"); assert("margin-right"@.len() != "border-top"@.len()); }
    assert("margin-top"@ != "border-top"@) by { reveal_strlit("margin-top"); assert("margin-top"@[0] != "border-top"@[0]); }
    assert("margin-bottom"@ != "border-top"@) by { reveal_strlit("margin-bottom"); assert("margin-bottom"@.len() != "border-top"@.len()); }
    assert("padding"@ != "border-top"@) by { reveal_strlit("padding"); assert("padding"@.len() != "border-top"@.len()); }
    assert("padding-left"@ != "border-top"@) by { reveal_strlit("padding-left"); assert("padding-left"@.len() != "border-top"@.len()); }
    assert("padding-right"@ != "border-top"@) by { reveal_strlit("padding-right"); assert("padding-right"@.len() != "border-top"@.len()); }
    assert("padding-top"@ != "border-top"@) by { reveal_strlit("padding-top"); assert("padding-top"@.len() != "border-top"@.len()); }
    assert("padding-bottom"@ != "border-top"@) by { reveal_strlit("padding-bottom"); assert("padding-bottom"@.len() != "border-top"@.len()); }
    assert("border"@ != "border-top"@) by { reveal_strlit("border"); assert("border"@.len() != "border-top"@.len()); }
    assert("border-left"@ != "border-top"@) by { reveal_strlit("border-left"); assert("border-left"@.len() != "border-top"@.len()); }
    assert("border-right"@ != "border-top"@) by { reveal_strlit("border-right"); assert("border-right"@.len() != "border-top"@.len()); }
}

proof fn lemma_name_border_bottom(name: Seq<u8>)
    requires
        byte_text(name) == "border-bottom"@,
    ensures
        prop_named(name) == Some(Prop::BorderBottom),
{
    reveal_strlit("border-bottom");
    assert("background-color"@ != "border-bottom"@) by { reveal_strlit("background-color"); assert("background-color"@.len() != "border-bottom"@.len()); }
    assert("border-color"@ != "border-bottom"@) by { reveal_strlit("border-color"); assert("border-color"@.len() != "border-bottom"@.len()); }
    assert("z-index"@ != "border-bottom"@) by { reveal_strlit("z-index"); assert("z-index"@.len() != "border-bottom"@.len()); }
    assert("display"@ != "border-bottom"@) by { reveal_strlit("display"); assert("display"@.len() != "border-bottom"@.len()); }
    assert("position"@ != "border-bottom"@) by { reveal_strlit("position"); assert("position"@.len() != "border-bottom"@.len()); }
    assert("overflow"@ != "border-bottom"@) by { reveal_strlit("overflow"); assert("overflow"@.len() != "border-bottom"@.len()); }
    assert("overflow-x"@ != "border-bottom"@) by { reveal_strlit("overflow-x"); assert("overflow-x"@.len() != "border-bottom"@.len()); }
    assert("overflow-y"@ != "border-bottom"@) by { reveal_strlit("overflow-y"); assert("overflow-y"@.len() != "border-bottom"@.len()); }
    assert("direction"@ != "border-bottom"@) by { reveal_strlit("direction"); assert("direction"@.len() != "border-bottom"@.len()); }
    assert("left"@ != "border-bottom"@) by { reveal_strlit("left"); assert("left"@.len() != "border-bottom"@.len()); }
    assert("right"@ != "border-bottom"@) by { reveal_strlit("right"); assert("right"@.len() != "border-bottom"@.len()); }
    assert("top"@ != "border-bottom"@) by { reveal_strlit("top"); assert("top"@.len() != "border-bottom"@.len()); }
    assert("bottom"@ != "border-bottom"@) by { reveal_strlit("bottom"); assert("bottom"@.len() != "border-bottom"@.len()); }
    assert("width"@ != "border-bottom"@) by { reveal_strlit("width"); assert("width"@.len() != "border-bottom"@.len()); }
    assert("height"@ != "border-bottom"@) by { reveal_strlit("height"); assert("height"@.len() != "border-bottom"@.len()); }
    assert("min-width"@ != "border-bottom"@) by { reveal_strlit("min-width"); assert("min-width"@.len() != "border-bottom"@.len()); }
    assert("min-height"@ != "border-bottom"@) by { reveal_strlit("min-height"); assert("min-height"@.len() != "border-bottom"@.len()); }
    assert("max-width"@ != "border-bottom"@) by { reveal_strlit("max-width"); assert("max-width"@.len() != "border-bottom"@.len()); }
    assert("max-height"@ != "border-bottom"@) by { reveal_strlit("max-height"); assert("max-height"@.len() != "border-bottom"@.len()); }
    assert("align-items"@ != "border-bottom"@) by { reveal_strlit("align-items"); assert("align-items"@.len() != "border-bottom"@.len()); }
    assert("justify-items"@ != "border-bottom"@) by { reveal_strlit("justify-items"); assert("justify-items"@[0] != "border-bottom"@[0]); }
    assert("align-self"@ != "border-bottom"@) by { reveal_strlit("align-self"); assert("align-self"@.len() != "border-bottom"@.len()); }
    assert("justify-self"@ != "border-bottom"@) by { reveal_strlit("justify-self"); assert("justify-self"@.len() != "border-bottom"@.len()); }
    assert("align-content"@ != "border-bottom"@) by { reveal_strlit("align-content"); assert("align-content"@[0] != "border-bottom"@[0]); }
    assert("justify-content"@ != "border-bottom"@) by { reveal_strlit("justify-content"); assert("justify-content"@.len() != "border-bottom"@.len()); }
    assert("margin"@ != "border-bottom"@) by { reveal_strlit("margin"); assert("margin"@.len() != "border-bottom"@.len()); }
    assert("margin-left"@ != "border-bottom"@) by { reveal_strlit("margin-left"); assert("margin-left"@.len() != "border-bottom"@.len()); }
    assert("margin-right"@ != "border-bottom"@) by { reveal_strlit("margin-right"); assert("margin-right"@.len() != "border-bottom"@.len()); }
    assert("margin-top"@ != "border-bottom"@) by { reveal_strlit("margin-top"); assert("margin-top"@.len() != "border-bottom"@.len()); }
    assert("margin-bottom"@ != "border-bottom"@) by { reveal_strlit("margin-bottom"); assert("margin-bottom"@[0] != "border-bottom"@[0]); }
    assert("padding"@ != "border-bottom"@) by { reveal_strlit("padding"); assert("padding"@.len() != "border-bottom"@.len()); }
    assert("padding-left"@ != "border-bottom"@) by { reveal_strlit("padding-left"); assert("padding-left"@.len() != "border-bottom"@.len()); }
    assert("padding-right"@ != "border-bottom"@) by { reveal_strlit("padding-right"); assert("padding-right"@[0] != "border-bottom"@[0]); }
    assert("padding-top"@ != "border-bottom"@) by { reveal_strlit("padding-top"); assert("padding-top"@.len() != "border-bottom"@.len()); }
    assert("padding-bottom"@ != "border-bottom"@) by { reveal_strlit("padding-bottom"); assert("padding-bottom"@.len() != "border-bottom"@.len()); }
    assert("border"@ != "border-bottom"@) by { reveal_strlit("border"); assert("border"@.len() != "border-bottom"@.len()); }
    assert("border-left"@ != "border-bottom"@) by { reveal_strlit("border-left"); assert("border-left"@.len() != "border-bottom"@.len()); }
    assert("border-right"@ != "border-bottom"@) by { reveal_strlit("border-right"); assert("border-right"@.len() != "border-bottom"@.len()); }
    assert("border-top"@ != "border-bottom"@) by { reveal_strlit("border-top"); assert("border-top"@.len() != "border-bottom"@.len()); }
}

proof fn lemma_name_flex_direction(name: Seq<u8>)
    requires
        byte_text(name) == "flex-direction"@,
    ensures
        prop_named(name) == Some(Prop::FlexDirection),
{
    reveal_strlit("flex-direction");
    assert("background-color"@ != "flex-direction"@) by { reveal_strlit("background-color"); assert("background-color"@.len() != "flex-direction"@.len()); }
    assert("border-color"@ != "flex-direction"@) by { reveal_strlit("border-color"); assert("border-color"@.len() != "flex-direction"@.len()); }
    assert("z-index"@ != "flex-direction"@) by { reveal_strlit("z-index"); assert("z-index"@.len() != "flex-direction"@.len()); }
    assert("display"@ != "flex-direction"@) by { reveal_strlit("display"); assert("display"@.len() != "flex-direction"@.len()); }
    assert("position"@ != "flex-direction"@) by { reveal_strlit("position"); assert("position"@.len() != "flex-direction"@.len()); }
    assert("overflow"@ != "flex-direction"@) by { reveal_strlit("overflow"); assert("overflow"@.len() != "flex-direction"@.len()); }
    assert("overflow-x"@ != "flex-direction"@) by { reveal_strlit("overflow-x"); assert("overflow-x"@.len() != "flex-direction"@.len()); }
    assert("overflow-y"@ != "flex-direction"@) by { reveal_strlit("overflow-y"); assert("overflow-y"@.len() != "flex-direction"@.len()); }
    assert("direction"@ != "flex-direction"@) by { reveal_strlit("direction"); assert("direction"@.len() != "flex-direction"@.len()); }
    assert("left"@ != "flex-direction"@) by { reveal_strlit("left"); assert("left"@.len() != "flex-direction"@.len()); }
    assert("right"@ != "flex-direction"@) by { reveal_strlit("right"); assert("right"@.len() != "flex-direction"@.len()); }
    assert("top"@ != "flex-direction"@) by { reveal_strlit("top"); assert("top"@.len() != "flex-direction"@.len()); }
    assert("bottom"@ != "flex-direction"@) by { reveal_strlit("bottom"); assert("bottom"@.len() != "flex-direction"@.len()); }
    assert("width"@ != "flex-direction"@) by { reveal_strlit("width"); assert("width"@.len() != "flex-direction"@.len()); }
    assert("height"@ != "flex-direction"@) by { reveal_strlit("height"); assert("height"@.len() != "flex-direction"@.len()); }
    assert("min-width"@ != "flex-direction"@) by { reveal_strlit("min-width"); assert("min-width"@.len() != "flex-direction"@.len()); }
    assert("min-height"@ != "flex-direction"@) by { reveal_strlit("min-height"); assert("min-height"@.len() != "flex-direction"@.len()); }
    assert("max-width"@ != "flex-direction"@) by { reveal_strlit("max-width"); assert("max-width"@.len() != "flex-direction"@.len()); }
    assert("max-height"@ != "flex-direction"@) by { reveal_strlit("max-height"); assert("max-height"@.len() != "flex-direction"@.len()); }
    assert("align-items"@ != "flex-direction"@) by { reveal_strlit("align-items"); assert("align-items"@.len() != "flex-direction"@.len()); }
    assert("justify-items"@ != "flex-direction"@) by { reveal_strlit("justify-items"); assert("justify-items"@.len() != "flex-direction"@.len()); }
    assert("align-self"@ != "flex-direction"@) by { reveal_strlit("align-self"); assert("align-self"@.len() != "flex-direction"@.len()); }
    assert("justify-self"@ != "flex-direction"@) by { reveal_strlit("justify-self"); assert("justify-self"@.len() != "flex-direction"@.len()); }
    assert("align-content"@ != "flex-direction"@) by { reveal_strlit("align-content"); assert("align-content"@.len() != "flex-direction"@.len()); }
    assert("justify-content"@ != "flex-direction"@) by { reveal_strlit("justify-content"); assert("justify-content"@.len() != "flex-direction"@.len()); }
    assert("margin"@ != "flex-direction"@) by { reveal_strlit("margin"); assert("margin"@.len() != "flex-direction"@.len()); }
    assert("margin-left"@ != "flex-direction"@) by { reveal_strlit("margin-left"); assert("margin-left"@.len() != "flex-direction"@.len()); }
    assert("margin-right"@ != "flex-direction"@) by { reveal_strlit("margin-right"); assert("margin-right"@.len() != "flex-direction"@.len()); }
    assert("margin-top"@ != "flex-direction"@) by { reveal_strlit("margin-top"); assert("margin-top"@.len() != "flex-direction"@.len()); }
    assert("margin-bottom"@ != "flex-direction"@) by { reveal_strlit("margin-bottom"); assert("margin-bottom"@.len() != "flex-direction"@.len()); }
    assert("padding"@ != "flex-direction"@) by { reveal_strlit("padding"); assert("padding"@.len() != "flex-direction"@.len()); }
    assert("padding-left"@ != "flex-direction"@) by { reveal_strlit("padding-left"); assert("padding-left"@.len() != "flex-direction"@.len()); }
    assert("padding-right"@ != "flex-direction"@) by { reveal_strlit("padding-right"); assert("padding-right"@.len() != "flex-direction"@.len()); }
    assert("padding-top"@ != "flex-direction"@) by { reveal_strlit("padding-top"); assert("padding-top"@.len() != "flex-direction"@.len()); }
    assert("padding-bottom"@ != "flex-direction"@) by { reveal_strlit("padding-bottom"); assert("padding-bottom"@[0] != "flex-direction"@[0]); }
    assert("border"@ != "flex-direction"@) by { reveal_strlit("border"); assert("border"@.len() != "flex-direction"@.len()); }
    assert("border-left"@ != "flex-direction"@) by { reveal_strlit("border-left"); assert("border-left"@.len() != "flex-direction"@.len()); }
    assert("border-right"@ != "flex-direction"@) by { reveal_strlit("border-right"); assert("border-right"@.len() != "flex-direction"@.len()); }
    assert("border-top"@ != "flex-direction"@) by { reveal_strlit("border-top"); assert("border-top"@.len() != "flex-direction"@.len()); }
    assert("border-bottom"@ != "flex-direction"@) by { reveal_strlit("border-bottom"); assert("border-bottom"@.len() != "flex-direction"@.len()); }
}

proof fn lemma_name_flex_wrap(name: Seq<u8>)
    requires
        byte_text(name) == "flex-wrap"@,
    ensures
        prop_named(name) == Some(Prop::FlexWrap),
{
    reveal_strlit("flex-wrap");
    assert("background-color"@ != "flex-wrap"@) by { reveal_strlit("background-color"); assert("background-color"@.len() != "flex-wrap"@.len()); }
    assert("border-color"@ != "flex-wrap"@) by { reveal_strlit("border-color"); assert("border-color"@.len() != "flex-wrap"@.len()); }
    assert("z-index"@ != "flex-wrap"@) by { reveal_strlit("z-index"); assert("z-index"@.len() != "flex-wrap"@.len()); }
    assert("display"@ != "flex-wrap"@) by { reveal_strlit("display"); assert("display"@.len() != "flex-wrap"@.len()); }
    assert("position"@ != "flex-wrap"@) by { reveal_strlit("position"); assert("position"@.len() != "flex-wrap"@.len()); }
    assert("overflow"@ != "flex-wrap"@) by { reveal_strlit("overflow"); assert("overflow"@.len() != "flex-wrap"@.len()); }
    assert("overflow-x"@ != "flex-wrap"@) by { reveal_strlit("overflow-x"); assert("overflow-x"@.len() != "flex-wrap"@.len()); }
    assert("overflow-y"@ != "flex-wrap"@) by { reveal_strlit("overflow-y"); assert("overflow-y"@.len() != "flex-wrap"@.len()); }
    assert("direction"@ != "flex-wrap"@) by { reveal_strlit("direction"); assert("direction"@[0] != "flex-wrap"@[0]); }
    assert("left"@ != "flex-wrap"@) by { reveal_strlit("left"); assert("left"@.len() != "flex-wrap"@.len()); }
    assert("right"@ != "flex-wrap"@) by { reveal_strlit("right"); assert("right"@.len() != "flex-wrap"@.len()); }
    assert("top"@ != "flex-wrap"@) by { reveal_strlit("top"); assert("top"@.len() != "flex-wrap"@.len()); }
    assert("bottom"@ != "flex-wrap"@) by { reveal_strlit("bottom"); assert("bottom"@.len() != "flex-wrap"@.len()); }
    assert("width"@ != "flex-wrap"@) by { reveal_strlit("width"); assert("width"@.len() != "flex-wrap"@.len()); }
    assert("height"@ != "flex-wrap"@) by { reveal_strlit("height"); assert("height"@.len() != "flex-wrap"@.len()); }
    assert("min-width"@ != "flex-wrap"@) by { reveal_strlit("min-width"); assert("min-width"@[0] != "flex-wrap"@[0]); }
    assert("min-height"@ != "flex-wrap"@) by { reveal_strlit("min-height"); assert("min-height"@.len() != "flex-wrap"@.len()); }
    assert("max-width"@ != "flex-wrap"@) by { reveal_strlit("max-width"); assert("max-width"@[0] != "flex-wrap"@[0]); }
    assert("max-height"@ != "flex-wrap"@) by { reveal_strlit("max-height"); assert("max-height"@.len() != "flex-wrap"@.len()); }
    assert("align-items"@ != "flex-wrap"@) by { reveal_strlit("align-items"); assert("align-items"@.len() != "flex-wrap"@.len()); }
    assert("justify-items"@ != "flex-wrap"@) by { reveal_strlit("justify-items"); assert("justify-items"@.len() != "flex-wrap"@.len()); }
    assert("align-self"@ != "flex-wrap"@) by { reveal_strlit("align-self"); assert("align-self"@.len() != "flex-wrap"@.len()); }
    assert("justify-self"@ != "flex-wrap"@) by { reveal_strlit("justify-self"); assert("justify-self"@.len() != "flex-wrap"@.len()); }
    assert("align-content"@ != "flex-wrap"@) by { reveal_strlit("align-content"); assert("align-content"@.len() != "flex-wrap"@.len()); }
    assert("justify-content"@ != "flex-wrap"@) by { reveal_strlit("justify-content"); assert("justify-content"@.len() != "flex-wrap"@.len()); }
    assert("margin"@ != "flex-wrap"@) by { reveal_strlit("margin"); assert("margin"@.len() != "flex-wrap"@.len()); }
    assert("margin-left"@ != "flex-wrap"@) by { reveal_strlit("margin-left"); assert("margin-left"@.len() != "flex-wrap"@.len()); }
    assert("margin-right"@ != "flex-wrap"@) by { reveal_strlit("margin-right"); assert("margin-right"@.len() != "flex-wrap"@.len()); }
    assert("margin-top"@ != "flex-wrap"@) by { reveal_strlit("margin-top"); assert("margin-top"@.len() != "flex-wrap"@.len()); }
    assert("margin-bottom"@ != "flex-wrap"@) by { reveal_strlit("margin-bottom"); assert("margin-bottom"@.len() != "flex-wrap"@.len()); }
    assert("padding"@ != "flex-wrap"@) by { reveal_strlit("padding"); assert("padding"@.len() != "flex-wrap"@.len()); }
    assert("padding-left"@ != "flex-wrap"@) by { reveal_strlit("padding-left"); assert("padding-left"@.len() != "flex-wrap"@.len()); }
    assert("padding-right"@ != "flex-wrap"@) by { reveal_strlit("padding-right"); assert("padding-right"@.len() != "flex-wrap"@.len()); }
    assert("padding-top"@ != "flex-wrap"@) by { reveal_strlit("padding-top"); assert("padding-top"@.len() != "flex-wrap"@.len()); }
    assert("padding-bottom"@ != "flex-wrap"@) by { reveal_strlit("padding-bottom"); assert("padding-bottom"@.len() != "flex-wrap"@.len()); }
    assert("border"@ != "flex-wrap"@) by { reveal_strlit("border"); assert("border"@.len() != "flex-wrap"@.len()); }
    assert("border-left"@ != "flex-wrap"@) by { reveal_strlit("border-left"); assert("border-left"@.len() != "flex-wrap"@.len()); }
    assert("border-right"@ != "flex-wrap"@) by { reveal_strlit("border-right"); assert("border-right"@.len() != "flex-wrap"@.len()); }
    assert("border-top"@ != "flex-wrap"@) by { reveal_strlit("border-top"); assert("border-top"@.len() != "flex-wrap"@.len()); }
    assert("border-bottom"@ != "flex-wrap"@) by { reveal_strlit("border-bottom"); assert("border-bottom"@.len() != "flex-wrap"@.len()); }
    assert("flex-direction"@ != "flex-wrap"@) by { reveal_strlit("flex-direction"); assert("flex-direction"@.len() != "flex-wrap"@.len()); }
}

proof fn lemma_name_flex_grow(name: Seq<u8>)
    requires
        byte_text(name) == "flex-grow"@,
    ensures
        prop_named(name) == Some(Prop::FlexGrow),
{
    reveal_strlit("flex-grow");
    assert("background-color"@ != "flex-grow"@) by { reveal_strlit("background-color"); assert("background-color"@.len() != "flex-grow"@.len()); }
    assert("border-color"@ != "flex-grow"@) by { reveal_strlit("border-color"); assert("border-color"@.len() != "flex-grow"@.len()); }
    assert("z-index"@ != "flex-grow"@) by { reveal_strlit("z-index"); assert("z-index"@.len() != "flex-grow"@.len()); }
    assert("display"@ != "flex-grow"@) by { reveal_strlit("display"); assert("display"@.len() != "flex-grow"@.len()); }
    assert("position"@ != "flex-grow"@) by { reveal_strlit("position"); assert("position"@.len() != "flex-grow"@.len()); }
    assert("overflow"@ != "flex-grow"@) by { reveal_strlit("overflow"); assert("overflow"@.len() != "flex-grow"@.len()); }
    assert("overflow-x"@ != "flex-grow"@) by { reveal_strlit("overflow-x"); assert("overflow-x"@.len() != "flex-grow"@.len()); }
    assert("overflow-y"@ != "flex-grow"@) by { reveal_strlit("overflow-y"); assert("overflow-y"@.len() != "flex-grow"@.len()); }
    assert("direction"@ != "flex-grow"@) by { reveal_strlit("direction"); assert("direction"@[0] != "flex-grow"@[0]); }
    assert("left"@ != "flex-grow"@) by { reveal_strlit("left"); assert("left"@.len() != "flex-grow"@.len()); }
    assert("right"@ != "flex-grow"@) by { reveal_strlit("right"); assert("right"@.len() != "flex-grow"@.len()); }
    assert("top"@ != "flex-grow"@) by { reveal_strlit("top"); assert("top"@.len() != "flex-grow"@.len()); }
    assert("bottom"@ != "flex-grow"@) by { reveal_strlit("bottom"); assert("bottom"@.len() != "flex-grow"@.len()); }
    assert("width"@ != "flex-grow"@) by { reveal_strlit("width"); assert("width"@.len() != "flex-grow"@.len()); }
    assert("height"@ != "flex-grow"@) by { reveal_strlit("height"); assert("height"@.len() != "flex-grow"@.len()); }
    assert("min-width"@ != "flex-grow"@) by { reveal_strlit("min-width"); assert("min-width"@[0] != "flex-grow"@[0]); }
    assert("min-height"@ != "flex-grow"@) by { reveal_strlit("min-height"); assert("min-height"@.len() != "flex-grow"@.len()); }
    assert("max-width"@ != "flex-grow"@) by { reveal_strlit("max-width"); assert("max-width"@[0] != "flex-grow"@[0]); }
    assert("max-height"@ != "flex-grow"@) by { reveal_strlit("max-height"); assert("max-height"@.len() != "flex-grow"@.len()); }
    assert("align-items"@ != "flex-grow"@) by { reveal_strlit("align-items"); assert("align-items"@.len() != "flex-grow"@.len()); }
    assert("justify-items"@ != "flex-grow"@) by { reveal_strlit("justify-items"); assert("justify-items"@.len() != "flex-grow"@.len()); }
    assert("align-self"@ != "flex-grow"@) by { reveal_strlit("align-self"); assert("align-self"@.len() != "flex-grow"@.len()); }
    assert("justify-self"@ != "flex-grow"@) by { reveal_strlit("justify-self"); assert("justify-self"@.len() != "flex-grow"@.len()); }
    assert("align-content"@ != "flex-grow"@) by { reveal_strlit("align-content"); assert("align-content"@.len() != "flex-grow"@.len()); }
    assert("justify-content"@ != "flex-grow"@) by { reveal_strlit("justify-content"); assert("justify-content"@.len() != "flex-grow"@.len()); }
    assert("margin"@ != "flex-grow"@) by { reveal_strlit("margin"); assert("margin"@.len() != "flex-grow"@.len()); }
    assert("margin-left"@ != "flex-grow"@) by { reveal_strlit("margin-left"); assert("margin-left"@.len() != "flex-grow"@.len()); }
    assert("margin-right"@ != "flex-grow"@) by { reveal_strlit("margin-right"); assert("margin-right"@.len() != "flex-grow"@.len()); }
    assert("margin-top"@ != "flex-grow"@) by { reveal_strlit("margin-top"); assert("margin-top"@.len() != "flex-grow"@.len()); }
    assert("margin-bottom"@ != "flex-grow"@) by { reveal_strlit("margin-bottom"); assert("margin-bottom"@.len() != "flex-grow"@.len()); }
    assert("padding"@ != "flex-grow"@) by { reveal_strlit("padding"); assert("padding"@.len() != "flex-grow"@.len()); }
    assert("padding-left"@ != "flex-grow"@) by { reveal_strlit("padding-left"); assert("padding-left"@.len() != "flex-grow"@.len()); }
    assert("padding-right"@ != "flex-grow"@) by { reveal_strlit("padding-right"); assert("padding-right"@.len() != "flex-grow"@.len()); }
    assert("padding-top"@ != "flex-grow"@) by { reveal_strlit("padding-top"); assert("padding-top"@.len() != "flex-grow"@.len()); }
    assert("padding-bottom"@ != "flex-grow"@) by { reveal_strlit("padding-bottom"); assert("padding-bottom"@.len() != "flex-grow"@.len()); }
    assert("border"@ != "flex-grow"@) by { reveal_strlit("border"); assert("border"@.len() != "flex-grow"@.len()); }
    assert("border-left"@ != "flex-grow"@) by { reveal_strlit("border-left"); assert("border-left"@.len() != "flex-grow"@.len()); }
    assert("border-right"@ != "flex-grow"@) by { reveal_strlit("border-right"); assert("border-right"@.len() != "flex-grow"@.len()); }
    assert("border-top"@ != "flex-grow"@) by { reveal_strlit("border-top"); assert("border-top"@.len() != "flex-grow"@.len()); }
    assert("border-bottom"@ != "flex-grow"@) by { reveal_strlit("border-bottom"); assert("border-bottom"@.len() != "flex-grow"@.len()); }
    assert("flex-direction"@ != "flex-grow"@) by { reveal_strlit("flex-direction"); assert("flex-direction"@.len() != "flex-grow"@.len()); }
    assert("flex-wrap"@ != "flex-grow"@) by { reveal_strlit("flex-wrap"); assert("flex-wrap"@[5] != "flex-grow"@[5]); }
    assert("flex"@ != "flex-grow"@) by { reveal_strlit("flex"); assert("flex"@.len() != "flex-grow"@.len()); }
}

proof fn lemma_name_flex_shrink(name: Seq<u8>)
    requires
        byte_text(name) == "flex-shrink"@,
    ensures
        prop_named(name) == Some(Prop::FlexShrink),
{
    reveal_strlit("flex-shrink");
    assert("background-color"@ != "flex-shrink"@) by { reveal_strlit("background-color"); assert("background-color"@.len() != "flex-shrink"@.len()); }
    assert("border-color"@ != "flex-shrink"@) by { reveal_strlit("border-color"); assert("border-color"@.len() != "flex-shrink"@.len()); }
    assert("z-index"@ != "flex-shrink"@) by { reveal_strlit("z-index"); assert("z-index"@.len() != "flex-shrink"@.len()); }
    assert("display"@ != "flex-shrink"@) by { reveal_strlit("display"); assert("display"@.len() != "flex-shrink"@.len()); }
    assert("position"@ != "flex-shrink"@) by { reveal_strlit("position"); assert("position"@.len() != "flex-shrink"@.len()); }
    assert("overflow"@ != "flex-shrink"@) by { reveal_strlit("overflow"); assert("overflow"@.len() != "flex-shrink"@.len()); }
    assert("overflow-x"@ != "flex-shrink"@) by { reveal_strlit("overflow-x"); assert("overflow-x"@.len() != "flex-shrink"@.len()); }
    assert("overflow-y"@ != "flex-shrink"@) by { reveal_strlit("overflow-y"); assert("overflow-y"@.len() != "flex-shrink"@.len()); }
    assert("direction"@ != "flex-shrink"@) by { reveal_strlit("direction"); assert("direction"@.len() != "flex-shrink"@.len()); }
    assert("left"@ != "flex-shrink"@) by { reveal_strlit("left"); assert("left"@.len() != "flex-shrink"@.len()); }
    assert("right"@ != "flex-shrink"@) by { reveal_strlit("right"); assert("right"@.len() != "flex-shrink"@.len()); }
    assert("top"@ != "flex-shrink"@) by { reveal_strlit("top"); assert("top"@.len() != "flex-shrink"@.len()); }
    assert("bottom"@ != "flex-shrink"@) by { reveal_strlit("bottom"); assert("bottom"@.len() != "flex-shrink"@.len()); }
    assert("width"@ != "flex-shrink"@) by { reveal_strlit("width"); assert("width"@.len() != "flex-shrink"@.len()); }
    assert("height"@ != "flex-shrink"@) by { reveal_strlit("height"); assert("height"@.len() != "flex-shrink"@.len()); }
    assert("min-width"@ != "flex-shrink"@) by { reveal_strlit("min-width"); assert("min-width"@.len() != "flex-shrink"@.len()); }
    assert("min-height"@ != "flex-shrink"@) by { reveal_strlit("min-height"); assert("min-height"@.len() != "flex-shrink"@.len()); }
    assert("max-width"@ != "flex-shrink"@) by { reveal_strlit("max-width"); assert("max-width"@.len() != "flex-shrink"@.len()); }
    assert("max-height"@ != "flex-shrink"@) by { reveal_strlit("max-height"); assert("max-height"@.len() != "flex-shrink"@.len()); }
    assert("align-items"@ != "flex-shrink"@) by { reveal_strlit("align-items"); assert("align-items"@[0] != "flex-shrink"@[0]); }
    assert("justify-items"@ != "flex-shrink"@) by { reveal_strlit("justify-items"); assert("justify-items"@.len() != "flex-shrink"@.len()); }
    assert("align-self"@ != "flex-shrink"@) by { reveal_strlit("align-self"); assert("align-self"@.len() != "flex-shrink"@.len()); }
    assert("justify-self"@ != "flex-shrink"@) by { reveal_strlit("justify-self"); assert("justify-self"@.len() != "flex-shrink"@.len()); }
    assert("align-content"@ != "flex-shrink"@) by { reveal_strlit("align-content"); assert("align-content"@.len() != "flex-shrink"@.len()); }
    assert("justify-content"@ != "flex-shrink"@) by { reveal_strlit("justify-content"); assert("justify-content"@.len() != "flex-shrink"@.len()); }
    assert("margin"@ != "flex-shrink"@) by { reveal_strlit("margin"); assert("margin"@.len() != "flex-shrink"@.len()); }
    assert("margin-left"@ != "flex-shrink"@) by { reveal_strlit("margin-left"); assert("margin-left"@[0] != "flex-shrink"@[0]); }
    assert("margin-right"@ != "flex-shrink"@) by { reveal_strlit("margin-right"); assert("margin-right"@.len() != "flex-shrink"@.len()); }
    assert("margin-top"@ != "flex-shrink"@) by { reveal_strlit("margin-top"); assert("margin-top"@.len() != "flex-shrink"@.len()); }
    assert("margin-bottom"@ != "flex-shrink"@) by { reveal_strlit("margin-bottom"); assert("margin-bottom"@.len() != "flex-shrink"@.len()); }
    assert("padding"@ != "flex-shrink"@) by { reveal_strlit("padding"); assert("padding"@.len() != "flex-shrink"@.len()); }
    assert("padding-left"@ != "flex-shrink"@) by { reveal_strlit("padding-left"); assert("padding-left"@.len() != "flex-shrink"@.len()); }
    assert("padding-right"@ != "flex-shrink"@) by { reveal_strlit("padding-right"); assert("padding-right"@.len() != "flex-shrink"@.len()); }
    assert("padding-top"@ != "flex-shrink"@) by { reveal_strlit("padding-top"); assert("padding-top"@[0] != "flex-shrink"@[0]); }
    assert("padding-bottom"@ != "flex-shrink"@) by { reveal_strlit("padding-bottom"); assert("padding-bottom"@.len() != "flex-shrink"@.len()); }
    assert("border"@ != "flex-shrink"@) by { reveal_strlit("border"); assert("border"@.len() != "flex-shrink"@.len()); }
    assert("border-left"@ != "flex-shrink"@) by { reveal_strlit("border-left"); assert("border-left"@[0] != "flex-shrink"@[0]); }
    assert("border-right"@ != "flex-shrink"@) by { reveal_strlit("border-right"); assert("border-right"@.len() != "flex-shrink"@.len()); }
    assert("border-top"@ != "flex-shrink"@) by { reveal_strlit("border-top"); assert("border-top"@.len() != "flex-shrink"@.len()); }
    assert("border-bottom"@ != "flex-shrink"@) by { reveal_strlit("border-bottom"); assert("border-bottom"@.len() != "flex-shrink"@.len()); }
    assert("flex-direction"@ != "flex-shrink"@) by { reveal_strlit("flex-direction"); assert("flex-direction"@.len() != "flex-shrink"@.len()); }
    assert("flex-wrap"@ != "flex-shrink"@) by { reveal_strlit("flex-wrap"); assert("flex-wrap"@.len() != "flex-shrink"@.len()); }
    assert("flex"@ != "flex-shrink"@) by { reveal_strlit("flex"); assert("flex"@.len() != "flex-shrink"@.len()); }
    assert("flex-grow"@ != "flex-shrink"@) by { reveal_strlit("flex-grow"); assert("flex-grow"@.len() != "flex-shrink"@.len()); }
}

proof fn lemma_name_flex_basis(name: Seq<u8>)
    requires
        byte_text(name) == "flex-basis"@,
    ensures
        prop_named(name) == Some(Prop::FlexBasis),
{
    reveal_strlit("flex-basis");
    assert("background-color"@ != "flex-basis"@) by { reveal_strlit("background-color"); assert("background-color"@.len() != "flex-basis"@.len()); }
    assert("border-color"@ != "flex-basis"@) by { reveal_strlit("border-color"); assert("border-color"@.len() != "flex-basis"@.len()); }
    assert("z-index"@ != "flex-basis"@) by { reveal_strlit("z-index"); assert("z-index"@.len() != "flex-basis"@.len()); }
    assert("display"@ != "flex-basis"@) by { reveal_strlit("display"); assert("display"@.len() != "flex-basis"@.len()); }
    assert("position"@ != "flex-basis"@) by { reveal_strlit("position"); assert("position"@.len() != "flex-basis"@.len()); }
    assert("overflow"@ != "flex-basis"@) by { reveal_strlit("overflow"); assert("overflow"@.len() != "flex-basis"@.len()); }
    assert("overflow-x"@ != "flex-basis"@) by { reveal_strlit("overflow-x"); assert("overflow-x"@[0] != "flex-basis"@[0]); }
    assert("overflow-y"@ != "flex-basis"@) by { reveal_strlit("overflow-y"); assert("overflow-y"@[0] != "flex-basis"@[0]); }
    assert("direction"@ != "flex-basis"@) by { reveal_strlit("direction"); assert("direction"@.len() != "flex-basis"@.len()); }
    assert("left"@ != "flex-basis"@) by { reveal_strlit("left"); assert("left"@.len() != "flex-basis"@.len()); }
    assert("right"@ != "flex-basis"@) by { reveal_strlit("right"); assert("right"@.len() != "flex-basis"@.len()); }
    assert("top"@ != "flex-basis"@) by { reveal_strlit("top"); assert("top"@.len() != "flex-basis"@.len()); }
    assert("bottom"@ != "flex-basis"@) by { reveal_strlit("bottom"); assert("bottom"@.len() != "flex-basis"@.len()); }
    assert("width"@ != "flex-basis"@) by { reveal_strlit("width"); assert("width"@.len() != "flex-basis"@.len()); }
    assert("height"@ != "flex-basis"@) by { reveal_strlit("height"); assert("height"@.len() != "flex-basis"@.len()); }
    assert("min-width"@ != "flex-basis"@) by { reveal_strlit("min-width"); assert("min-width"@.len() != "flex-basis"@.len()); }
    assert("min-height"@ != "flex-basis"@) by { reveal_strlit("min-height"); assert("min-height"@[0] != "flex-basis"@[0]); }
    assert("max-width"@ != "flex-basis"@) by { reveal_strlit("max-width"); assert("max-width"@.len() != "flex-basis"@.len()); }
    assert("max-height"@ != "flex-basis"@) by { reveal_strlit("max-height"); assert("max-height"@[0] != "flex-basis"@[0]); }
    assert("align-items"@ != "flex-basis"@) by { reveal_strlit("align-items"); assert("align-items"@.len() != "flex-basis"@.len()); }
    assert("justify-items"@ != "flex-basis"@) by { reveal_strlit("justify-items"); assert("justify-items"@.len() != "flex-basis"@.len()); }
    assert("align-self"@ != "flex-basis"@) by { reveal_strlit("align-self"); assert("align-self"@[0] != "flex-basis"@[0]); }
    assert("justify-self"@ != "flex-basis"@) by { reveal_strlit("justify-self"); assert("justify-self"@.len() != "flex-basis"@.len()); }
    assert("align-content"@ != "flex-basis"@) by { reveal_strlit("align-content"); assert("align-content"@.len() != "flex-basis"@.len()); }
    assert("justify-content"@ != "flex-basis"@) by { reveal_strlit("justify-content"); assert("justify-content"@.len() != "flex-basis"@.len()); }
    assert("margin"@ != "flex-basis"@) by { reveal_strlit("margin"); assert("margin"@.len() != "flex-basis"@.len()); }
    assert("margin-left"@ != "flex-basis"@) by { reveal_strlit("margin-left"); assert("margin-left"@.len() != "flex-basis"@.len()); }
    assert("margin-right"@ != "flex-basis"@) by { reveal_strlit("margin-right"); assert("margin-right"@.len() != "flex-basis"@.len()); }
    assert("margin-top"@ != "flex-basis"@) by { reveal_strlit("margin-top"); assert("margin-top"@[0] != "flex-basis"@[0]); }
    assert("margin-bottom"@ != "flex-basis"@) by { reveal_strlit("margin-bottom"); assert("margin-bottom"@.len() != "flex-basis"@.len()); }
    assert("padding"@ != "flex-basis"@) by { reveal_strlit("padding"); assert("padding"@.len() != "flex-basis"@.len()); }
    assert("padding-left"@ != "flex-basis"@) by { reveal_strlit("padding-left"); assert("padding-left"@.len() != "flex-basis"@.len()); }
    assert("padding-right"@ != "flex-basis"@) by { reveal_strlit("padding-right"); assert("padding-right"@.len() != "flex-basis"@.len()); }
    assert("padding-top"@ != "flex-basis"@) by { reveal_strlit("padding-top"); assert("padding-top"@.len() != "flex-basis"@.len()); }
    assert("padding-bottom"@ != "flex-basis"@) by { reveal_strlit("padding-bottom"); assert("padding-bottom"@.len() != "flex-basis"@.len()); }
    assert("border"@ != "flex-basis"@) by { reveal_strlit("border"); assert("border"@.len() != "flex-basis"@.len()); }
    assert("border-left"@ != "flex-basis"@) by { reveal_strlit("border-left"); assert("border-left"@.len() != "flex-basis"@.len()); }
    assert("border-right"@ != "flex-basis"@) by { reveal_strlit("border-right"); assert("border-right"@.len() != "flex-basis"@.len()); }
    assert("border-top"@ != "flex-basis"@) by { reveal_strlit("border-top"); assert("border-top"@[0] != "flex-basis"@[0]); }
    assert("border-bottom"@ != "flex-basis"@) by { reveal_strlit("border-bottom"); assert("border-bottom"@.len() != "flex-basis"@.len()); }
    assert("flex-direction"@ != "flex-basis"@) by { reveal_strlit("flex-direction"); assert("flex-direction"@.len() != "flex-basis"@.len()); }
    assert("flex-wrap"@ != "flex-basis"@) by { reveal_strlit("flex-wrap"); assert("flex-wrap"@.len() != "flex-basis"@.len()); }
    assert("flex"@ != "flex-basis"@) by { reveal_strlit("flex"); assert("flex"@.len() != "flex-basis"@.len()); }
    assert("flex-grow"@ != "flex-basis"@) by { reveal_strlit("flex-grow"); assert("flex-grow"@.len() != "flex-basis"@.len()); }
    assert("flex-shrink"@ != "flex-basis"@) by { reveal_strlit("flex-shrink"); assert("flex-shrink"@.len() != "flex-basis"@.len()); }
}

proof fn lemma_name_row_gap(name: Seq<u8>)
    requires
        byte_text(name) == "row-gap"@,
    ensures
        prop_named(name) == Some(Prop::RowGap),
{
    reveal_strlit("row-gap");
    assert("background-color"@ != "row-gap"@) by { reveal_strlit("background-color"); assert("background-color"@.len() != "row-gap"@.len()); }
    assert("border-color"@ != "row-gap"@) by { reveal_strlit("border-color"); assert("border-color"@.len() != "row-gap"@.len()); }
    assert("z-index"@ != "row-gap"@) by { reveal_strlit("z-index"); assert("z-index"@[0] != "row-gap"@[0]); }
    assert("display"@ != "row-gap"@) by { reveal_strlit("display"); assert("display"@[0] != "row-gap"@[0]); }
    assert("position"@ != "row-gap"@) by { reveal_strlit("position"); assert("position"@.len() != "row-gap"@.len()); }
    assert("overflow"@ != "row-gap"@) by { reveal_strlit("overflow"); assert("overflow"@.len() != "row-gap"@.len()); }
    assert("overflow-x"@ != "row-gap"@) by { reveal_strlit("overflow-x"); assert("overflow-x"@.len() != "row-gap"@.len()); }
    assert("overflow-y"@ != "row-gap"@) by { reveal_strlit("overflow-y"); assert("overflow-y"@.len() != "row-gap"@.len()); }
    assert("direction"@ != "row-gap"@) by { reveal_strlit("direction"); assert("direction"@.len() != "row-gap"@.len()); }
    assert("left"@ != "row-gap"@) by { reveal_strlit("left"); assert("left"@.len() != "row-gap"@.len()); }
    assert("right"@ != "row-gap"@) by { reveal_strlit("right"); assert("right"@.len() != "row-gap"@.len()); }
    assert("top"@ != "row-gap"@) by { reveal_strlit("top"); assert("top"@.len() != "row-gap"@.len()); }
    assert("bottom"@ != "row-gap"@) by { reveal_strlit("bottom"); assert("bottom"@.len() != "row-gap"@.len()); }
    assert("width"@ != "row-gap"@) by { reveal_strlit("width"); assert("width"@.len() != "row-gap"@.len()); }
    assert("height"@ != "row-gap"@) by { reveal_strlit("height"); assert("height"@.len() != "row-gap"@.len()); }
    assert("min-width"@ != "row-gap"@) by { reveal_strlit("min-width"); assert("min-width"@.len() != "row-gap"@.len()); }
    assert("min-height"@ != "row-gap"@) by { reveal_strlit("min-height"); assert("min-height"@.len() != "row-gap"@.len()); }
    assert("max-width"@ != "row-gap"@) by { reveal_strlit("max-width"); assert("max-width"@.len() != "row-gap"@.len()); }
    assert("max-height"@ != "row-gap"@) by { reveal_strlit("max-height"); assert("max-height"@.len() != "row-gap"@.len()); }
    assert("align-items"@ != "row-gap"@) by { reveal_strlit("align-items"); assert("align-items"@.len() != "row-gap"@.len()); }
    assert("justify-items"@ != "row-gap"@) by { reveal_strlit("justify-items"); assert("justify-items"@.len() != "row-gap"@.len()); }
    assert("align-self"@ != "row-gap"@) by { reveal_strlit("align-self"); assert("align-self"@.len() != "row-gap"@.len()); }
    assert("justify-self"@ != "row-gap"@) by { reveal_strlit("justify-self"); assert("justify-self"@.len() != "row-gap"@.len()); }
    assert("align-content"@ != "row-gap"@) by { reveal_strlit("align-content"); assert("align-content"@.len() != "row-gap"@.len()); }
    assert("justify-content"@ != "row-gap"@) by { reveal_strlit("justify-content"); assert("justify-content"@.len() != "row-gap"@.len()); }
    assert("margin"@ != "row-gap"@) by { reveal_strlit("margin"); assert("margin"@.len() != "row-gap"@.len()); }
    assert("margin-left"@ != "row-gap"@) by { reveal_strlit("margin-left"); assert("margin-left"@.len() != "row-gap"@.len()); }
    assert("margin-right"@ != "row-gap"@) by { reveal_strlit("margin-right"); assert("margin-right"@.len() != "row-gap"@.len()); }
    assert("margin-top"@ != "row-gap"@) by { reveal_strlit("margin-top"); assert("margin-top"@.len() != "row-gap"@.len()); }
    assert("margin-bottom"@ != "row-gap"@) by { reveal_strlit("margin-bottom"); assert("margin-bottom"@.len() != "row-gap"@.len()); }
    assert("padding"@ != "row-gap"@) by { reveal_strlit("padding"); assert("padding"@[0] != "row-gap"@[0]); }
    assert("padding-left"@ != "row-gap"@) by { reveal_strlit("padding-left"); assert("padding-left"@.len() != "row-gap"@.len()); }
    assert("padding-right"@ != "row-gap"@) by { reveal_strlit("padding-right"); assert("padding-right"@.len() != "row-gap"@.len()); }
    assert("padding-top"@ != "row-gap"@) by { reveal_strlit("padding-top"); assert("padding-top"@.len() != "row-gap"@.len()); }
    assert("padding-bottom"@ != "row-gap"@) by { reveal_strlit("padding-bottom"); assert("padding-bottom"@.len() != "row-gap"@.len()); }
    assert("border"@ != "row-gap"@) by { reveal_strlit("border"); assert("border"@.len() != "row-gap"@.len()); }
    assert("border-left"@ != "row-gap"@) by { reveal_strlit("border-left"); assert("border-left"@.len() != "row-gap"@.len()); }
    assert("border-right"@ != "row-gap"@) by { reveal_strlit("border-right"); assert("border-right"@.len() != "row-gap"@.len()); }
    assert("border-top"@ != "row-gap"@) by { reveal_strlit("border-top"); assert("border-top"@.len() != "row-gap"@.len()); }
    assert("border-bottom"@ != "row-gap"@) by { reveal_strlit("border-bottom"); assert("border-bottom"@.len() != "row-gap"@.len()); }
    assert("flex-direction"@ != "row-gap"@) by { reveal_strlit("flex-direction"); assert("flex-direction"@.len() != "row-gap"@.len()); }
    assert("flex-wrap"@ != "row-gap"@) by { reveal_strlit("flex-wrap"); assert("flex-wrap"@.len() != "row-gap"@.len()); }
    assert("flex"@ != "row-gap"@) by { reveal_strlit("flex"); assert("flex"@.len() != "row-gap"@.len()); }
    assert("flex-grow"@ != "row-gap"@) by { reveal_strlit("flex-grow"); assert("flex-grow"@.len() != "row-gap"@.len()); }
    assert("flex-shrink"@ != "row-gap"@) by { reveal_strlit("flex-shrink"); assert("flex-shrink"@.len() != "row-gap"@.len()); }
    assert("flex-basis"@ != "row-gap"@) by { reveal_strlit("flex-basis"); assert("flex-basis"@.len() != "row-gap"@.len()); }
}

proof fn lemma_name_column_gap(name: Seq<u8>)
    requires
        byte_text(name) == "column-gap"@,
    ensures
        prop_named(name) == Some(Prop::ColumnGap),
{
    reveal_strlit("column-gap");
    assert("background-color"@ != "column-gap"@) by { reveal_strlit("background-color"); assert("background-color"@.len() != "column-gap"@.len()); }
    assert("border-color"@ != "column-gap"@) by { reveal_strlit("border-color"); assert("border-color"@.len() != "column-gap"@.len()); }
    assert("z-index"@ != "column-gap"@) by { reveal_strlit("z-index"); assert("z-index"@.len() != "column-gap"@.len()); }
    assert("display"@ != "column-gap"@) by { reveal_strlit("display"); assert("display"@.len() != "column-gap"@.len()); }
    assert("position"@ != "column-gap"@) by { reveal_strlit("position"); assert("position"@.len() != "column-gap"@.len()); }
    assert("overflow"@ != "column-gap"@) by { reveal_strlit("overflow"); assert("overflow"@.len() != "column-gap"@.len()); }
    assert("overflow-x"@ != "column-gap"@) by { reveal_strlit("overflow-x"); assert("overflow-x"@[0] != "column-gap"@[0]); }
    assert("overflow-y"@ != "column-gap"@) by { reveal_strlit("overflow-y"); assert("overflow-y"@[0] != "column-gap"@[0]); }
    assert("direction"@ != "column-gap"@) by { reveal_strlit("direction"); assert("direction"@.len() != "column-gap"@.len()); }
    assert("left"@ != "column-gap"@) by { reveal_strlit("left"); assert("left"@.len() != "column-gap"@.len()); }
    assert("right"@ != "column-gap"@) by { reveal_strlit("right"); assert("right"@.len() != "column-gap"@.len()); }
    assert("top"@ != "column-gap"@) by { reveal_strlit("top"); assert("top"@.len() != "column-gap"@.len()); }
    assert("bottom"@ != "column-gap"@) by { reveal_strlit("bottom"); assert("bottom"@.len() != "column-gap"@.len()); }
    assert("width"@ != "column-gap"@) by { reveal_strlit("width"); assert("width"@.len() != "column-gap"@.len()); }
    assert("height"@ != "column-gap"@) by { reveal_strlit("height"); assert("height"@.len() != "column-gap"@.len()); }
    assert("min-width"@ != "column-gap"@) by { reveal_strlit("min-width"); assert("min-width"@.len() != "column-gap"@.len()); }
    assert("min-height"@ != "column-gap"@) by { reveal_strlit("min-height"); assert("min-height"@[0] != "column-gap"@[0]); }
    assert("max-width"@ != "column-gap"@) by { reveal_strlit("max-width"); assert("max-width"@.len() != "column-gap"@.len()); }
    assert("max-height"@ != "column-gap"@) by { reveal_strlit("max-height"); assert("max-height"@[0] != "column-gap"@[0]); }
    assert("align-items"@ != "column-gap"@) by { reveal_strlit("align-items"); assert("align-items"@.len() != "column-gap"@.len()); }
    assert("justify-items"@ != "column-gap"@) by { reveal_strlit("justify-items"); assert("justify-items"@.len() != "column-gap"@.len()); }
    assert("align-self"@ != "column-gap"@) by { reveal_strlit("align-self"); assert("align-self"@[0] != "column-gap"@[0]); }
    assert("justify-self"@ != "column-gap"@) by { reveal_strlit("justify-self"); assert("justify-self"@.len() != "column-gap"@.len()); }
    assert("align-content"@ != "column-gap"@) by { reveal_strlit("align-content"); assert("align-content"@.len() != "column-gap"@.len()); }
    assert("justify-content"@ != "column-gap"@) by { reveal_strlit("justify-content"); assert("justify-content"@.len() != "column-gap"@.len()); }
    assert("margin"@ != "column-gap"@) by { reveal_strlit("margin"); assert("margin"@.len() != "column-gap"@.len()); }
    assert("margin-left"@ != "column-gap"@) by { reveal_strlit("margin-left"); assert("margin-left"@.len() != "column-gap"@.len()); }
    assert("margin-right"@ != "column-gap"@) by { reveal_strlit("margin-right"); assert("margin-right"@.len() != "column-gap"@.len()); }
    assert("margin-top"@ != "column-gap"@) by { reveal_strlit("margin-top"); assert("margin-top"@[0] != "column-gap"@[0]); }
    assert("margin-bottom"@ != "column-gap"@) by { reveal_strlit("margin-bottom"); assert("margin-bottom"@.len() != "column-gap"@.len()); }
    assert("padding"@ != "column-gap"@) by { reveal_strlit("padding"); assert("padding"@.len() != "column-gap"@.len()); }
    assert("padding-left"@ != "column-gap"@) by { reveal_strlit("padding-left"); assert("padding-left"@.len() != "column-gap"@.len()); }
    assert("padding-right"@ != "column-gap"@) by { reveal_strlit("padding-right"); assert("padding-right"@.len() != "column-gap"@.len()); }
    assert("padding-top"@ != "column-gap"@) by { reveal_strlit("padding-top"); assert("padding-top"@.len() != "column-gap"@.len()); }
    assert("padding-bottom"@ != "column-gap"@) by { reveal_strlit("padding-bottom"); assert("padding-bottom"@.len() != "column-gap"@.len()); }
    assert("border"@ != "column-gap"@) by { reveal_strlit("border"); assert("border"@.len() != "column-gap"@.len()); }
    assert("border-left"@ != "column-gap"@) by { reveal_strlit("border-left"); assert("border-left"@.len() != "column-gap"@.len()); }
    assert("border-right"@ != "column-gap"@) by { reveal_strlit("border-right"); assert("border-right"@.len() != "column-gap"@.len()); }
    assert("border-top"@ != "column-gap"@) by { reveal_strlit("border-top"); assert("border-top"@[0] != "column-gap"@[0]); }
    assert("border-bottom"@ != "column-gap"@) by { reveal_strlit("border-bottom"); assert("border-bottom"@.len() != "column-gap"@.len()); }
    assert("flex-direction"@ != "column-gap"@) by { reveal_strlit("flex-direction"); assert("flex-direction"@.len() != "column-gap"@.len()); }
    assert("flex-wrap"@ != "column-gap"@) by { reveal_strlit("flex-wrap"); assert("flex-wrap"@.len() != "column-gap"@.len()); }
    assert("flex"@ != "column-gap"@) by { reveal_strlit("flex"); assert("flex"@.len() != "column-gap"@.len()); }
    assert("flex-grow"@ != "column-gap"@) by { reveal_strlit("flex-grow"); assert("flex-grow"@.len() != "column-gap"@.len()); }
    assert("flex-shrink"@ != "column-gap"@) by { reveal_strlit("flex-shrink"); assert("flex-shrink"@.len() != "column-gap"@.len()); }
    assert("flex-basis"@ != "column-gap"@) by { reveal_strlit("flex-basis"); assert("flex-basis"@[0] != "column-gap"@[0]); }
    assert("row-gap"@ != "column-gap"@) by { reveal_strlit("row-gap"); assert("row-gap"@.len() != "column-gap"@.len()); }
}

proof fn lemma_name_gap(name: Seq<u8>)
    requires
        byte_text(name) == "gap"@,
    ensures
        prop_named(name) == Some(Prop::Gap),
{
    reveal_strlit("gap");
    assert("background-color"@ != "gap"@) by { reveal_strlit("background-color"); assert("background-color"@.len() != "gap"@.len()); }
    assert("border-color"@ != "gap"@) by { reveal_strlit("border-color"); assert("border-color"@.len() != "gap"@.len()); }
    assert("z-index"@ != "gap"@) by { reveal_strlit("z-index"); assert("z-index"@.len() != "gap"@.len()); }
    assert("display"@ != "gap"@) by { reveal_strlit("display"); assert("display"@.len() != "gap"@.len()); }
    assert("position"@ != "gap"@) by { reveal_strlit("position"); assert("position"@.len() != "gap"@.len()); }
    assert("overflow"@ != "gap"@) by { reveal_strlit("overflow"); assert("overflow"@.len() != "gap"@.len()); }
    assert("overflow-x"@ != "gap"@) by { reveal_strlit("overflow-x"); assert("overflow-x"@.len() != "gap"@.len()); }
    assert("overflow-y"@ != "gap"@) by { reveal_strlit("overflow-y"); assert("overflow-y"@.len() != "gap"@.len()); }
    assert("direction"@ != "gap"@) by { reveal_strlit("direction"); assert("direction"@.len() != "gap"@.len()); }
    assert("left"@ != "gap"@) by { reveal_strlit("left"); assert("left"@.len() != "gap"@.len()); }
    assert("right"@ != "gap"@) by { reveal_strlit("right"); assert("right"@.len() != "gap"@.len()); }
    assert("top"@ != "gap"@) by { reveal_strlit("top"); assert("top"@[0] != "gap"@[0]); }
    assert("bottom"@ != "gap"@) by { reveal_strlit("bottom"); assert("bottom"@.len() != "gap"@.len()); }
    assert("width"@ != "gap"@) by { reveal_strlit("width"); assert("width"@.len() != "gap"@.len()); }
    assert("height"@ != "gap"@) by { reveal_strlit("height"); assert("height"@.len() != "gap"@.len()); }
    assert("min-width"@ != "gap"@) by { reveal_strlit("min-width"); assert("min-width"@.len() != "gap"@.len()); }
    assert("min-height"@ != "gap"@) by { reveal_strlit("min-height"); assert("min-height"@.len() != "gap"@.len()); }
    assert("max-width"@ != "gap"@) by { reveal_strlit("max-width"); assert("max-width"@.len() != "gap"@.len()); }
    assert("max-height"@ != "gap"@) by { reveal_strlit("max-height"); assert("max-height"@.len() != "gap"@.len()); }
    assert("align-items"@ != "gap"@) by { reveal_strlit("align-items"); assert("align-items"@.len() != "gap"@.len()); }
    assert("justify-items"@ != "gap"@) by { reveal_strlit("justify-items"); assert("justify-items"@.len() != "gap"@.len()); }
    assert("align-self"@ != "gap"@) by { reveal_strlit("align-self"); assert("align-self"@.len() != "gap"@.len()); }
    assert("justify-self"@ != "gap"@) by { reveal_strlit("justify-self"); assert("justify-self"@.len() != "gap"@.len()); }
    assert("align-content"@ != "gap"@) by { reveal_strlit("align-content"); assert("align-content"@.len() != "gap"@.len()); }
    assert("justify-content"@ != "gap"@) by { reveal_strlit("justify-content"); assert("justify-content"@.len() != "gap"@.len()); }
    assert("margin"@ != "gap"@) by { reveal_strlit("margin"); assert("margin"@.len() != "gap"@.len()); }
    assert("margin-left"@ != "gap"@) by { reveal_strlit("margin-left"); assert("margin-left"@.len() != "gap"@.len()); }
    assert("margin-right"@ != "gap"@) by { reveal_strlit("margin-right"); assert("margin-right"@.len() != "gap"@.len()); }
    assert("margin-top"@ != "gap"@) by { reveal_strlit("margin-top"); assert("margin-top"@.len() != "gap"@.len()); }
    assert("margin-bottom"@ != "gap"@) by { reveal_strlit("margin-bottom"); assert("margin-bottom"@.len() != "gap"@.len()); }
    assert("padding"@ != "gap"@) by { reveal_strlit("padding"); assert("padding"@.len() != "gap"@.len()); }
    assert("padding-left"@ != "gap"@) by { reveal_strlit("padding-left"); assert("padding-left"@.len() != "gap"@.len()); }
    assert("padding-right"@ != "gap"@) by { reveal_strlit("padding-right"); assert("padding-right"@.len() != "gap"@.len()); }
    assert("padding-top"@ != "gap"@) by { reveal_strlit("padding-top"); assert("padding-top"@.len() != "gap"@.len()); }
    assert("padding-bottom"@ != "gap"@) by { reveal_strlit("padding-bottom"); assert("padding-bottom"@.len() != "gap"@.len()); }
    assert("border"@ != "gap"@) by { reveal_strlit("border"); assert("border"@.len() != "gap"@.len()); }
    assert("border-left"@ != "gap"@) by { reveal_strlit("border-left"); assert("border-left"@.len() != "gap"@.len()); }
    assert("border-right"@ != "gap"@) by { reveal_strlit("border-right"); assert("border-right"@.len() != "gap"@.len()); }
    assert("border-top"@ != "gap"@) by { reveal_strlit("border-top"); assert("border-top"@.len() != "gap"@.len()); }
    assert("border-bottom"@ != "gap"@) by { reveal_strlit("border-bottom"); assert("border-bottom"@.len() != "gap"@.len()); }
    assert("flex-direction"@ != "gap"@) by { reveal_strlit("flex-direction"); assert("flex-direction"@.len() != "gap"@.len()); }
    assert("flex-wrap"@ != "gap"@) by { reveal_strlit("flex-wrap"); assert("flex-wrap"@.len() != "gap"@.len()); }
    assert("flex"@ != "gap"@) by { reveal_strlit("flex"); assert("flex"@.len() != "gap"@.len()); }
    assert("flex-grow"@ != "gap"@) by { reveal_strlit("flex-grow"); assert("flex-grow"@.len() != "gap"@.len()); }
    assert("flex-shrink"@ != "gap"@) by { reveal_strlit("flex-shrink"); assert("flex-shrink"@.len() != "gap"@.len()); }
    assert("flex-basis"@ != "gap"@) by { reveal_strlit("flex-basis"); assert("flex-basis"@.len() != "gap"@.len()); }
    assert("row-gap"@ != "gap"@) by { reveal_strlit("row-gap"); assert("row-gap"@.len() != "gap"@.len()); }
    assert("column-gap"@ != "gap"@) by { reveal_strlit("column-gap"); assert("column-gap"@.len() != "gap"@.len()); }
}

proof fn lemma_name_grid_auto_flow(name: Seq<u8>)
    requires
        byte_text(name) == "grid-auto-flow"@,
    ensures
        prop_named(name) == Some(Prop::GridAutoFlow),
{
    reveal_strlit("grid-auto-flow");
    assert("background-color"@ != "grid-auto-flow"@) by { reveal_strlit("background-color"); assert("background-color"@.len() != "grid-auto-flow"@.len()); }
    assert("border-color"@ != "grid-auto-flow"@) by { reveal_strlit("border-color"); assert("border-color"@.len() != "grid-auto-flow"@.len()); }
    assert("z-index"@ != "grid-auto-flow"@) by { reveal_strlit("z-index"); assert("z-index"@.len() != "grid-auto-flow"@.len()); }
    assert("display"@ != "grid-auto-flow"@) by { reveal_strlit("display"); assert("display"@.len() != "grid-auto-flow"@.len()); }
    assert("position"@ != "grid-auto-flow"@) by { reveal_strlit("position"); assert("position"@.len() != "grid-auto-flow"@.len()); }
    assert("overflow"@ != "grid-auto-flow"@) by { reveal_strlit("overflow"); assert("overflow"@.len() != "grid-auto-flow"@.len()); }
    assert("overflow-x"@ != "grid-auto-flow"@) by { reveal_strlit("overflow-x"); assert("overflow-x"@.len() != "grid-auto-flow"@.len()); }
    assert("overflow-y"@ != "grid-auto-flow"@) by { reveal_strlit("overflow-y"); assert("overflow-y"@.len() != "grid-auto-flow"@.len()); }
    assert("direction"@ != "grid-auto-flow"@) by { reveal_strlit("direction"); assert("direction"@.len() != "grid-auto-flow"@.len()); }
    assert("left"@ != "grid-auto-flow"@) by { reveal_strlit("left"); assert("left"@.len() != "grid-auto-flow"@.len()); }
    assert("right"@ != "grid-auto-flow"@) by { reveal_strlit("right"); assert("right"@.len() != "grid-auto-flow"@.len()); }
    assert("top"@ != "grid-auto-flow"@) by { reveal_strlit("top"); assert("top"@.len() != "grid-auto-flow"@.len()); }
    assert("bottom"@ != "grid-auto-flow"@) by { reveal_strlit("bottom"); assert("bottom"@.len() != "grid-auto-flow"@.len()); }
    assert("width"@ != "grid-auto-flow"@) by { reveal_strlit("width"); assert("width"@.len() != "grid-auto-flow"@.len()); }
    assert("height"@ != "grid-auto-flow"@) by { reveal_strlit("height"); assert("height"@.len() != "grid-auto-flow"@.len()); }
    assert("min-width"@ != "grid-auto-flow"@) by { reveal_strlit("min-width"); assert("min-width"@.len() != "grid-auto-flow"@.len()); }
    assert("min-height"@ != "grid-auto-flow"@) by { reveal_strlit("min-height"); assert("min-height"@.len() != "grid-auto-flow"@.len()); }
    assert("max-width"@ != "grid-auto-flow"@) by { reveal_strlit("max-width"); assert("max-width"@.len() != "grid-auto-flow"@.len()); }
    assert("max-height"@ != "grid-auto-flow"@) by { reveal_strlit("max-height"); assert("max-height"@.len() != "grid-auto-flow"@.len()); }
    assert("align-items"@ != "grid-auto-flow"@) by { reveal_strlit("align-items"); assert("align-items"@.len() != "grid-auto-flow"@.len()); }
    assert("justify-items"@ != "grid-auto-flow"@) by { reveal_strlit("justify-items"); assert("justify-items"@.len() != "grid-auto-flow"@.len()); }
    assert("align-self"@ != "grid-auto-flow"@) by { reveal_strlit("align-self"); assert("align-self"@.len() != "grid-auto-flow"@.len()); }
    assert("justify-self"@ != "grid-auto-flow"@) by { reveal_strlit("justify-self"); assert("justify-self"@.len() != "grid-auto-flow"@.len()); }
    assert("align-content"@ != "grid-auto-flow"@) by { reveal_strlit("align-content"); assert("align-content"@.len() != "grid-auto-flow"@.len()); }
    assert("justify-content"@ != "grid-auto-flow"@) by { reveal_strlit("justify-content"); assert("justify-content"@.len() != "grid-auto-flow"@.len()); }
    assert("margin"@ != "grid-auto-flow"@) by { reveal_strlit("margin"); assert("margin"@.len() != "grid-auto-flow"@.len()); }
    assert("margin-left"@ != "grid-auto-flow"@) by { reveal_strlit("margin-left"); assert("margin-left"@.len() != "grid-auto-flow"@.len()); }
    assert("margin-right"@ != "grid-auto-flow"@) by { reveal_strlit("margin-right"); assert("margin-right"@.len() != "grid-auto-flow"@.len()); }
    assert("margin-top"@ != "grid-auto-flow"@) by { reveal_strlit("margin-top"); assert("margin-top"@.len() != "grid-auto-flow"@.len()); }
    assert("margin-bottom"@ != "grid-auto-flow"@) by { reveal_strlit("margin-bottom"); assert("margin-bottom"@.len() != "grid-auto-flow"@.len()); }
    assert("padding"@ != "grid-auto-flow"@) by { reveal_strlit("padding"); assert("padding"@.len() != "grid-auto-flow"@.len()); }
    assert("padding-left"@ != "grid-auto-flow"@) by { reveal_strlit("padding-left"); assert("padding-left"@.len() != "grid-auto-flow"@.len()); }
    assert("padding-right"@ != "grid-auto-flow"@) by { reveal_strlit("padding-right"); assert("padding-right"@.len() != "grid-auto-flow"@.len()); }
    assert("padding-top"@ != "grid-auto-flow"@) by { reveal_strlit("padding-top"); assert("padding-top"@.len() != "grid-auto-flow"@.len()); }
    assert("padding-bottom"@ != "grid-auto-flow"@) by { reveal_strlit("padding-bottom"); assert("padding-bottom"@[0] != "grid-auto-flow"@[0]); }
    assert("border"@ != "grid-auto-flow"@) by { reveal_strlit("border"); assert("border"@.len() != "grid-auto-flow"@.len()); }
    assert("border-left"@ != "grid-auto-flow"@) by { reveal_strlit("border-left"); assert("border-left"@.len() != "grid-auto-flow"@.len()); }
    assert("border-right"@ != "grid-auto-flow"@) by { reveal_strlit("border-right"); assert("border-right"@.len() != "grid-auto-flow"@.len()); }
    assert("border-top"@ != "grid-auto-flow"@) by { reveal_strlit("border-top"); assert("border-top"@.len() != "grid-auto-flow"@.len()); }
    assert("border-bottom"@ != "grid-auto-flow"@) by { reveal_strlit("border-bottom"); assert("border-bottom"@.len() != "grid-auto-flow"@.len()); }
    assert("flex-direction"@ != "grid-auto-flow"@) by { reveal_strlit("flex-direction"); assert("flex-direction"@[0] != "grid-auto-flow"@[0]); }
    assert("flex-wrap"@ != "grid-auto-flow"@) by { reveal_strlit("flex-wrap"); assert("flex-wrap"@.len() != "grid-auto-flow"@.len()); }
    assert("flex"@ != "grid-auto-flow"@) by { reveal_strlit("flex"); assert("flex"@.len() != "grid-auto-flow"@.len()); }
    assert("flex-grow"@ != "grid-auto-flow"@) by { reveal_strlit("flex-grow"); assert("flex-grow"@.len() != "grid-auto-flow"@.len()); }
    assert("flex-shrink"@ != "grid-auto-flow"@) by { reveal_strlit("flex-shrink"); assert("flex-shrink"@.len() != "grid-auto-flow"@.len()); }
    assert("flex-basis"@ != "grid-auto-flow"@) by { reveal_strlit("flex-basis"); assert("flex-basis"@.len() != "grid-auto-flow"@.len()); }
    assert("row-gap"@ != "grid-auto-flow"@) by { reveal_strlit("row-gap"); assert("row-gap"@.len() != "grid-auto-flow"@.len()); }
    assert("column-gap"@ != "grid-auto-flow"@) by { reveal_strlit("column-gap"); assert("column-gap"@.len() != "grid-auto-flow"@.len()); }
    assert("gap"@ != "grid-auto-flow"@) by { reveal_strlit("gap"); assert("gap"@.len() != "grid-auto-flow"@.len()); }
}

proof fn lemma_name_grid_row(name: Seq<u8>)
    requires
        byte_text(name) == "grid-row"@,
    ensures
        prop_named(name) == Some(Prop::GridRow),
{
    reveal_strlit("grid-row");
    assert("background-color"@ != "grid-row"@) by { reveal_strlit("background-color"); assert("background-color"@.len() != "grid-row"@.len()); }
    assert("border-color"@ != "grid-row"@) by { reveal_strlit("border-color"); assert("border-color"@.len() != "grid-row"@.len()); }
    assert("z-index"@ != "grid-row"@) by { reveal_strlit("z-index"); assert("z-index"@.len() != "grid-row"@.len()); }
    assert("display"@ != "grid-row"@) by { reveal_strlit("display"); assert("display"@.len() != "grid-row"@.len()); }
    assert("position"@ != "grid-row"@) by { reveal_strlit("position"); assert("position"@[0] != "grid-row"@[0]); }
    assert("overflow"@ != "grid-row"@) by { reveal_strlit("overflow"); assert("overflow"@[0] != "grid-row"@[0]); }
    assert("overflow-x"@ != "grid-row"@) by { reveal_strlit("overflow-x"); assert("overflow-x"@.len() != "grid-row"@.len()); }
    assert("overflow-y"@ != "grid-row"@) by { reveal_strlit("overflow-y"); assert("overflow-y"@.len() != "grid-row"@.len()); }
    assert("direction"@ != "grid-row"@) by { reveal_strlit("direction"); assert("direction"@.len() != "grid-row"@.len()); }
    assert("left"@ != "grid-row"@) by { reveal_strlit("left"); assert("left"@.len() != "grid-row"@.len()); }
    assert("right"@ != "grid-row"@) by { reveal_strlit("right"); assert("right"@.len() != "grid-row"@.len()); }
    assert("top"@ != "grid-row"@) by { reveal_strlit("top"); assert("top"@.len() != "grid-row"@.len()); }
    assert("bottom"@ != "grid-row"@) by { reveal_strlit("bottom"); assert("bottom"@.len() != "grid-row"@.len()); }
    assert("width"@ != "grid-row"@) by { reveal_strlit("width"); assert("width"@.len() != "grid-row"@.len()); }
    assert("height"@ != "grid-row"@) by { reveal_strlit("height"); assert("height"@.len() != "grid-row"@.len()); }
    assert("min-width"@ != "grid-row"@) by { reveal_strlit("min-width"); assert("min-width"@.len() != "grid-row"@.len()); }
    assert("min-height"@ != "grid-row"@) by { reveal_strlit("min-height"); assert("min-height"@.len() != "grid-row"@.len()); }
    assert("max-width"@ != "grid-row"@) by { reveal_strlit("max-width"); assert("max-width"@.len() != "grid-row"@.len()); }
    assert("max-height"@ != "grid-row"@) by { reveal_strlit("max-height"); assert("max-height"@.len() != "grid-row"@.len()); }
    assert("align-items"@ != "grid-row"@) by { reveal_strlit("align-items"); assert("align-items"@.len() != "grid-row"@.len()); }
    assert("justify-items"@ != "grid-row"@) by { reveal_strlit("justify-items"); assert("justify-items"@.len() != "grid-row"@.len()); }
    assert("align-self"@ != "grid-row"@) by { reveal_strlit("align-self"); assert("align-self"@.len() != "grid-row"@.len()); }
    assert("justify-self"@ != "grid-row"@) by { reveal_strlit("justify-self"); assert("justify-self"@.len() != "grid-row"@.len()); }
    assert("align-content"@ != "grid-row"@) by { reveal_strlit("align-content"); assert("align-content"@.len() != "grid-row"@.len()); }
    assert("justify-content"@ != "grid-row"@) by { reveal_strlit("justify-content"); assert("justify-content"@.len() != "grid-row"@.len()); }
    assert("margin"@ != "grid-row"@) by { reveal_strlit("margin"); assert("margin"@.len() != "grid-row"@.len()); }
    assert("margin-left"@ != "grid-row"@) by { reveal_strlit("margin-left"); assert("margin-left"@.len() != "grid-row"@.len()); }
    assert("margin-right"@ != "grid-row"@) by { reveal_strlit("margin-right"); assert("margin-right"@.len() != "grid-row"@.len()); }
    assert("margin-top"@ != "grid-row"@) by { reveal_strlit("margin-top"); assert("margin-top"@.len() != "grid-row"@.len()); }
    assert("margin-bottom"@ != "grid-row"@) by { reveal_strlit("margin-bottom"); assert("margin-bottom"@.len() != "grid-row"@.len()); }
    assert("padding"@ != "grid-row"@) by { reveal_strlit("padding"); assert("padding"@.len() != "grid-row"@.len()); }
    assert("padding-left"@ != "grid-row"@) by { reveal_strlit("padding-left"); assert("padding-left"@.len() != "grid-row"@.len()); }
    assert("padding-right"@ != "grid-row"@) by { reveal_strlit("padding-right"); assert("padding-right"@.len() != "grid-row"@.len()); }
    assert("padding-top"@ != "grid-row"@) by { reveal_strlit("padding-top"); assert("padding-top"@.len() != "grid-row"@.len()); }
    assert("padding-bottom"@ != "grid-row"@) by { reveal_strlit("padding-bottom"); assert("padding-bottom"@.len() != "grid-row"@.len()); }
    assert("border"@ != "grid-row"@) by { reveal_strlit("border"); assert("border"@.len() != "grid-row"@.len()); }
    assert("border-left"@ != "grid-row"@) by { reveal_strlit("border-left"); assert("border-left"@.len() != "grid-row"@.len()); }
    assert("border-right"@ != "grid-row"@) by { reveal_strlit("border-right"); assert("border-right"@.len() != "grid-row"@.len()); }
    assert("border-top"@ != "grid-row"@) by { reveal_strlit("border-top"); assert("border-top"@.len() != "grid-row"@.len()); }
    assert("border-bottom"@ != "grid-row"@) by { reveal_strlit("border-bottom"); assert("border-bottom"@.len() != "grid-row"@.len()); }
    assert("flex-direction"@ != "grid-row"@) by { reveal_strlit("flex-direction"); assert("flex-direction"@.len() != "grid-row"@.len()); }
    assert("flex-wrap"@ != "grid-row"@) by { reveal_strlit("flex-wrap"); assert("flex-wrap"@.len() != "grid-row"@.len()); }
    assert("flex"@ != "grid-row"@) by { reveal_strlit("flex"); assert("flex"@.len() != "grid-row"@.len()); }
    assert("flex-grow"@ != "grid-row"@) by { reveal_strlit("flex-grow"); assert("flex-grow"@.len() != "grid-row"@.len()); }
    assert("flex-shrink"@ != "grid-row"@) by { reveal_strlit("flex-shrink"); assert("flex-shrink"@.len() != "grid-row"@.len()); }
    assert("flex-basis"@ != "grid-row"@) by { reveal_strlit("flex-basis"); assert("flex-basis"@.len() != "grid-row"@.len()); }
    assert("row-gap"@ != "grid-row"@) by { reveal_strlit("row-gap"); assert("row-gap"@.len() != "grid-row"@.len()); }
    assert("column-gap"@ != "grid-row"@) by { reveal_strlit("column-gap"); assert("column-gap"@.len() != "grid-row"@.len()); }
    assert("gap"@ != "grid-row"@) by { reveal_strlit("gap"); assert("gap"@.len() != "grid-row"@.len()); }
    assert("grid-auto-flow"@ != "grid-row"@) by { reveal_strlit("grid-auto-flow"); assert("grid-auto-flow"@.len() != "grid-row"@.len()); }
}

proof fn lemma_name_grid_row_start(name: Seq<u8>)
    requires
        byte_text(name) == "grid-row-start"@,
    ensures
        prop_named(name) == Some(Prop::GridRowStart),
{
    reveal_strlit("grid-row-start");
    assert("background-color"@ != "grid-row-start"@) by { reveal_strlit("background-color"); assert("background-color"@.len() != "grid-row-start"@.len()); }
    assert("border-color"@ != "grid-row-start"@) by { reveal_strlit("border-color"); assert("border-color"@.len() != "grid-row-start"@.len()); }
    assert("z-index"@ != "grid-row-start"@) by { reveal_strlit("z-index"); assert("z-index"@.len() != "grid-row-start"@.len()); }
    assert("display"@ != "grid-row-start"@) by { reveal_strlit("display"); assert("display"@.len() != "grid-row-start"@.len()); }
    assert("position"@ != "grid-row-start"@) by { reveal_strlit("position"); assert("position"@.len() != "grid-row-start"@.len()); }
    assert("overflow"@ != "grid-row-start"@) by { reveal_strlit("overflow"); assert("overflow"@.len() != "grid-row-start"@.len()); }
    assert("overflow-x"@ != "grid-row-start"@) by { reveal_strlit("overflow-x"); assert("overflow-x"@.len() != "grid-row-start"@.len()); }
    assert("overflow-y"@ != "grid-row-start"@) by { reveal_strlit("overflow-y"); assert("overflow-y"@.len() != "grid-row-start"@.len()); }
    assert("direction"@ != "grid-row-start"@) by { reveal_strlit("direction"); assert("direction"@.len() != "grid-row-start"@.len()); }
    assert("left"@ != "grid-row-start"@) by { reveal_strlit("left"); assert("left"@.len() != "grid-row-start"@.len()); }
    assert("right"@ != "grid-row-start"@) by { reveal_strlit("right"); assert("right"@.len() != "grid-row-start"@.len()); }
    assert("top"@ != "grid-row-start"@) by { reveal_strlit("top"); assert("top"@.len() != "grid-row-start"@.len()); }
    assert("bottom"@ != "grid-row-start"@) by { reveal_strlit("bottom"); assert("bottom"@.len() != "grid-row-start"@.len()); }
    assert("width"@ != "grid-row-start"@) by { reveal_strlit("width"); assert("width"@.len() != "grid-row-start"@.len()); }
    assert("height"@ != "grid-row-start"@) by { reveal_strlit("height"); assert("height"@.len() != "grid-row-start"@.len()); }
    assert("min-width"@ != "grid-row-start"@) by { reveal_strlit("min-width"); assert("min-width"@.len() != "grid-row-start"@.len()); }
    assert("min-height"@ != "grid-row-start"@) by { reveal_strlit("min-height"); assert("min-height"@.len() != "grid-row-start"@.len()); }
    assert("max-width"@ != "grid-row-start"@) by { reveal_strlit("max-width"); assert("max-width"@.len() != "grid-row-start"@.len()); }
    assert("max-height"@ != "grid-row-start"@) by { reveal_strlit("max-height"); assert("max-height"@.len() != "grid-row-start"@.len()); }
    assert("align-items"@ != "grid-row-start"@) by { reveal_strlit("align-items"); assert("align-items"@.len() != "grid-row-start"@.len()); }
    assert("justify-items"@ != "grid-row-start"@) by { reveal_strlit("justify-items"); assert("justify-items"@.len() != "grid-row-start"@.len()); }
    assert("align-self"@ != "grid-row-start"@) by { reveal_strlit("align-self"); assert("align-self"@.len() != "grid-row-start"@.len()); }
    assert("justify-self"@ != "grid-row-start"@) by { reveal_strlit("justify-self"); assert("justify-self"@.len() != "grid-row-start"@.len()); }
    assert("align-content"@ != "grid-row-start"@) by { reveal_strlit("align-content"); assert("align-content"@.len() != "grid-row-start"@.len()); }
    assert("justify-content"@ != "grid-row-start"@) by { reveal_strlit("justify-content"); assert("justify-content"@.len() != "grid-row-start"@.len()); }
    assert("margin"@ != "grid-row-start"@) by { reveal_strlit("margin"); assert("margin"@.len() != "grid-row-start"@.len()); }
    assert("margin-left"@ != "grid-row-start"@) by { reveal_strlit("margin-left"); assert("margin-left"@.len() != "grid-row-start"@.len()); }
    assert("margin-right"@ != "grid-row-start"@) by { reveal_strlit("margin-right"); assert("margin-right"@.len() != "grid-row-start"@.len()); }
    assert("margin-top"@ != "grid-row-start"@) by { reveal_strlit("margin-top"); assert("margin-top"@.len() != "grid-row-start"@.len()); }
    assert("margin-bottom"@ != "grid-row-start"@) by { reveal_strlit("margin-bottom"); assert("margin-bottom"@.len() != "grid-row-start"@.len()); }
    assert("padding"@ != "grid-row-start"@) by { reveal_strlit("padding"); assert("padding"@.len() != "grid-row-start"@.len()); }
    assert("padding-left"@ != "grid-row-start"@) by { reveal_strlit("padding-left"); assert("padding-left"@.len() != "grid-row-start"@.len()); }
    assert("padding-right"@ != "grid-row-start"@) by { reveal_strlit("padding-right"); assert("padding-right"@.len() != "grid-row-start"@.len()); }
    assert("padding-top"@ != "grid-row-start"@) by { reveal_strlit("padding-top"); assert("padding-top"@.len() != "grid-row-start"@.len()); }
    assert("padding-bottom"@ != "grid-row-start"@) by { reveal_strlit("padding-bottom"); assert("padding-bottom"@[0] != "grid-row-start"@[0]); }
    assert("border"@ != "grid-row-start"@) by { reveal_strlit("border"); assert("border"@.len() != "grid-row-start"@.len()); }
    assert("border-left"@ != "grid-row-start"@) by { reveal_strlit("border-left"); assert("border-left"@.len() != "grid-row-start"@.len()); }
    assert("border-right"@ != "grid-row-start"@) by { reveal_strlit("border-right"); assert("border-right"@.len() != "grid-row-start"@.len()); }
    assert("border-top"@ != "grid-row-start"@) by { reveal_strlit("border-top"); assert("border-top"@.len() != "grid-row-start"@.len()); }
    assert("border-bottom"@ != "grid-row-start"@) by { reveal_strlit("border-bottom"); assert("border-bottom"@.len() != "grid-row-start"@.len()); }
    assert("flex-direction"@ != "grid-row-start"@) by { reveal_strlit("flex-direction"); assert("flex-direction"@[0] != "grid-row-start"@[0]); }
    assert("flex-wrap"@ != "grid-row-start"@) by { reveal_strlit("flex-wrap"); assert("flex-wrap"@.len() != "grid-row-start"@.len()); }
    assert("flex"@ != "grid-row-start"@) by { reveal_strlit("flex"); assert("flex"@.len() != "grid-row-start"@.len()); }
    assert("flex-grow"@ != "grid-row-start"@) by { reveal_strlit("flex-grow"); assert("flex-grow"@.len() != "grid-row-start"@.len()); }
    assert("flex-shrink"@ != "grid-row-start"@) by { reveal_strlit("flex-shrink"); assert("flex-shrink"@.len() != "grid-row-start"@.len()); }
    assert("flex-basis"@ != "grid-row-start"@) by { reveal_strlit("flex-basis"); assert("flex-basis"@.len() != "grid-row-start"@.len()); }
    assert("row-gap"@ != "grid-row-start"@) by { reveal_strlit("row-gap"); assert("row-gap"@.len() != "grid-row-start"@.len()); }
    assert("column-gap"@ != "grid-row-start"@) by { reveal_strlit("column-gap"); assert("column-gap"@.len() != "grid-row-start"@.len()); }
    assert("gap"@ != "grid-row-start"@) by { reveal_strlit("gap"); assert("gap"@.len() != "grid-row-start"@.len()); }
    assert("grid-auto-flow"@ != "grid-row-start"@) by { reveal_strlit("grid-auto-flow"); assert("grid-auto-flow"@[5] != "grid-row-start"@[5]); }
    assert("grid-row"@ != "grid-row-start"@) by { reveal_strlit("grid-row"); assert("grid-row"@.len() != "grid-row-start"@.len()); }
}

proof fn lemma_name_grid_row_span(name: Seq<u8>)
    requires
        byte_text(name) == "grid-row-span"@,
    ensures
        prop_named(name) == Some(Prop::GridRowSpan),
{
    reveal_strlit("grid-row-span");
    assert("background-color"@ != "grid-row-span"@) by { reveal_strlit("background-color"); assert("background-color"@.len() != "grid-row-span"@.len()); }
    assert("border-color"@ != "grid-row-span"@) by { reveal_strlit("border-color"); assert("border-color"@.len() != "grid-row-span"@.len()); }
    assert("z-index"@ != "grid-row-span"@) by { reveal_strlit("z-index"); assert("z-index"@.len() != "grid-row-span"@.len()); }
    assert("display"@ != "grid-row-span"@) by { reveal_strlit("display"); assert("display"@.len() != "grid-row-span"@.len()); }
    assert("position"@ != "grid-row-span"@) by { reveal_strlit("position"); assert("position"@.len() != "grid-row-span"@.len()); }
    assert("overflow"@ != "grid-row-span"@) by { reveal_strlit("overflow"); assert("overflow"@.len() != "grid-row-span"@.len()); }
    assert("overflow-x"@ != "grid-row-span"@) by { reveal_strlit("overflow-x"); assert("overflow-x"@.len() != "grid-row-span"@.len()); }
    assert("overflow-y"@ != "grid-row-span"@) by { reveal_strlit("overflow-y"); assert("overflow-y"@.len() != "grid-row-span"@.len()); }
    assert("direction"@ != "grid-row-span"@) by { reveal_strlit("direction"); assert("direction"@.len() != "grid-row-span"@.len()); }
    assert("left"@ != "grid-row-span"@) by { reveal_strlit("left"); assert("left"@.len() != "grid-row-span"@.len()); }
    assert("right"@ != "grid-row-span"@) by { reveal_strlit("right"); assert("right"@.len() != "grid-row-span"@.len()); }
    assert("top"@ != "grid-row-span"@) by { reveal_strlit("top"); assert("top"@.len() != "grid-row-span"@.len()); }
    assert("bottom"@ != "grid-row-span"@) by { reveal_strlit("bottom"); assert("bottom"@.len() != "grid-row-span"@.len()); }
    assert("width"@ != "grid-row-span"@) by { reveal_strlit("width"); assert("width"@.len() != "grid-row-span"@.len()); }
    assert("height"@ != "grid-row-span"@) by { reveal_strlit("height"); assert("height"@.len() != "grid-row-span"@.len()); }
    assert("min-width"@ != "grid-row-span"@) by { reveal_strlit("min-width"); assert("min-width"@.len() != "grid-row-span"@.len()); }
    assert("min-height"@ != "grid-row-span"@) by { reveal_strlit("min-height"); assert("min-height"@.len() != "grid-row-span"@.len()); }
    assert("max-width"@ != "grid-row-span"@) by { reveal_strlit("max-width"); assert("max-width"@.len() != "grid-row-span"@.len()); }
    assert("max-height"@ != "grid-row-span"@) by { reveal_strlit("max-height"); assert("max-height"@.len() != "grid-row-span"@.len()); }
    assert("align-items"@ != "grid-row-span"@) by { reveal_strlit("align-items"); assert("align-items"@.len() != "grid-row-span"@.len()); }
    assert("justify-items"@ != "grid-row-span"@) by { reveal_strlit("justify-items"); assert("justify-items"@[0] != "grid-row-span"@[0]); }
    assert("align-self"@ != "grid-row-span"@) by { reveal_strlit("align-self"); assert("align-self"@.len() != "grid-row-span"@.len()); }
    assert("justify-self"@ != "grid-row-span"@) by { reveal_strlit("justify-self"); assert("justify-self"@.len() != "grid-row-span"@.len()); }
    assert("align-content"@ != "grid-row-span"@) by { reveal_strlit("align-content"); assert("align-content"@[0] != "grid-row-span"@[0]); }
    assert("justify-content"@ != "grid-row-span"@) by { reveal_strlit("justify-content"); assert("justify-content"@.len() != "grid-row-span"@.len()); }
    assert("margin"@ != "grid-row-span"@) by { reveal_strlit("margin"); assert("margin"@.len() != "grid-row-span"@.len()); }
    assert("margin-left"@ != "grid-row-span"@) by { reveal_strlit("margin-left"); assert("margin-left"@.len() != "grid-row-span"@.len()); }
    assert("margin-right"@ != "grid-row-span"@) by { reveal_strlit("margin-right"); assert("margin-right"@.len() != "grid-row-span"@.len()); }
    assert("margin-top"@ != "grid-row-span"@) by { reveal_strlit("margin-top"); assert("margin-top"@.len() != "grid-row-span"@.len()); }
    assert("margin-bottom"@ != "grid-row-span"@) by { reveal_strlit("margin-bottom"); assert("margin-bottom"@[0] != "grid-row-span"@[0]); }
    assert("padding"@ != "grid-row-span"@) by { reveal_strlit("padding"); assert("padding"@.len() != "grid-row-span"@.len()); }
    assert("padding-left"@ != "grid-row-span"@) by { reveal_strlit("padding-left"); assert("padding-left"@.len() != "grid-row-span"@.len()); }
    assert("padding-right"@ != "grid-row-span"@) by { reveal_strlit("padding-right"); assert("padding-right"@[0] != "grid-row-span"@[0]); }
    assert("padding-top"@ != "grid-row-span"@) by { reveal_strlit("padding-top"); assert("padding-top"@.len() != "grid-row-span"@.len()); }
    assert("padding-bottom"@ != "grid-row-span"@) by { reveal_strlit("padding-bottom"); assert("padding-bottom"@.len() != "grid-row-span"@.len()); }
    assert("border"@ != "grid-row-span"@) by { reveal_strlit("border"); assert("border"@.len() != "grid-row-span"@.len()); }
    assert("border-left"@ != "grid-row-span"@) by { reveal_strlit("border-left"); assert("border-left"@.len() != "grid-row-span"@.len()); }
    assert("border-right"@ != "grid-row-span"@) by { reveal_strlit("border-right"); assert("border-right"@.len() != "grid-row-span"@.len()); }
    assert("border-top"@ != "grid-row-span"@) by { reveal_strlit("border-top"); assert("border-top"@.len() != "grid-row-span"@.len()); }
    assert("border-bottom"@ != "grid-row-span"@) by { reveal_strlit("border-bottom"); assert("border-bottom"@[0] != "grid-row-span"@[0]); }
    assert("flex-direction"@ != "grid-row-span"@) by { reveal_strlit("flex-direction"); assert("flex-direction"@.len() != "grid-row-span"@.len()); }
    assert("flex-wrap"@ != "grid-row-span"@) by { reveal_strlit("flex-wrap"); assert("flex-wrap"@.len() != "grid-row-span"@.len()); }
    assert("flex"@ != "grid-row-span"@) by { reveal_strlit("flex"); assert("flex"@.len() != "grid-row-span"@.len()); }
    assert("flex-grow"@ != "grid-row-span"@) by { reveal_strlit("flex-grow"); assert("flex-grow"@.len() != "grid-row-span"@.len()); }
    assert("flex-shrink"@ != "grid-row-span"@) by { reveal_strlit("flex-shrink"); assert("flex-shrink"@.len() != "grid-row-span"@.len()); }
    assert("flex-basis"@ != "grid-row-span"@) by { reveal_strlit("flex-basis"); assert("flex-basis"@.len() != "grid-row-span"@.len()); }
    assert("row-gap"@ != "grid-row-span"@) by { reveal_strlit("row-gap"); assert("row-gap"@.len() != "grid-row-span"@.len()); }
    assert("column-gap"@ != "grid-row-span"@) by { reveal_strlit("column-gap"); assert("column-gap"@.len() != "grid-row-span"@.len()); }
    assert("gap"@ != "grid-row-span"@) by { reveal_strlit("gap"); assert("gap"@.len() != "grid-row-span"@.len()); }
    assert("grid-auto-flow"@ != "grid-row-span"@) by { reveal_strlit("grid-auto-flow"); assert("grid-auto-flow"@.len() != "grid-row-span"@.len()); }
    assert("grid-row"@ != "grid-row-span"@) by { reveal_strlit("grid-row"); assert("grid-row"@.len() != "grid-row-span"@.len()); }
    assert("grid-row-start"@ != "grid-row-span"@) by { reveal_strlit("grid-row-start"); assert("grid-row-start"@.len() != "grid-row-span"@.len()); }
}

proof fn lemma_name_grid_row_end(name: Seq<u8>)
    requires
        byte_text(name) == "grid-row-end"@,
    ensures
        prop_named(name) == Some(Prop::GridRowEnd),
{
    reveal_strlit("grid-row-end");
    assert("background-color"@ != "grid-row-end"@) by { reveal_strlit("background-color"); assert("background-color"@.len() != "grid-row-end"@.len()); }
    assert("border-color"@ != "grid-row-end"@) by { reveal_strlit("border-color"); assert("border-color"@[0] != "grid-row-end"@[0]); }
    assert("z-index"@ != "grid-row-end"@) by { reveal_strlit("z-index"); assert("z-index"@.len() != "grid-row-end"@.len()); }
    assert("display"@ != "grid-row-end"@) by { reveal_strlit("display"); assert("display"@.len() != "grid-row-end"@.len()); }
    assert("position"@ != "grid-row-end"@) by { reveal_strlit("position"); assert("position"@.len() != "grid-row-end"@.len()); }
    assert("overflow"@ != "grid-row-end"@) by { reveal_strlit("overflow"); assert("overflow"@.len() != "grid-row-end"@.len()); }
    assert("overflow-x"@ != "grid-row-end"@) by { reveal_strlit("overflow-x"); assert("overflow-x"@.len() != "grid-row-end"@.len()); }
    assert("overflow-y"@ != "grid-row-end"@) by { reveal_strlit("overflow-y"); assert("overflow-y"@.len() != "grid-row-end"@.len()); }
    assert("direction"@ != "grid-row-end"@) by { reveal_strlit("direction"); assert("direction"@.len() != "grid-row-end"@.len()); }
    assert("left"@ != "grid-row-end"@) by { reveal_strlit("left"); assert("left"@.len() != "grid-row-end"@.len()); }
    assert("right"@ != "grid-row-end"@) by { reveal_strlit("right"); assert("right"@.len() != "grid-row-end"@.len()); }
    assert("top"@ != "grid-row-end"@) by { reveal_strlit("top"); assert("top"@.len() != "grid-row-end"@.len()); }
    assert("bottom"@ != "grid-row-end"@) by { reveal_strlit("bottom"); assert("bottom"@.len() != "grid-row-end"@.len()); }
    assert("width"@ != "grid-row-end"@) by { reveal_strlit("width"); assert("width"@.len() != "grid-row-end"@.len()); }
    assert("height"@ != "grid-row-end"@) by { reveal_strlit("height"); assert("height"@.len() != "grid-row-end"@.len()); }
    assert("min-width"@ != "grid-row-end"@) by { reveal_strlit("min-width"); assert("min-width"@.len() != "grid-row-end"@.len()); }
    assert("min-height"@ != "grid-row-end"@) by { reveal_strlit("min-height"); assert("min-height"@.len() != "grid-row-end"@.len()); }
    assert("max-width"@ != "grid-row-end"@) by { reveal_strlit("max-width"); assert("max-width"@.len() != "grid-row-end"@.len()); }
    assert("max-height"@ != "grid-row-end"@) by { reveal_strlit("max-height"); assert("max-height"@.len() != "grid-row-end"@.len()); }
    assert("align-items"@ != "grid-row-end"@) by { reveal_strlit("align-items"); assert("align-items"@.len() != "grid-row-end"@.len()); }
    assert("justify-items"@ != "grid-row-end"@) by { reveal_strlit("justify-items"); assert("justify-items"@.len() != "grid-row-end"@.len()); }
    assert("align-self"@ != "grid-row-end"@) by { reveal_strlit("align-self"); assert("align-self"@.len() != "grid-row-end"@.len()); }
    assert("justify-self"@ != "grid-row-end"@) by { reveal_strlit("justify-self"); assert("justify-self"@[0] != "grid-row-end"@[0]); }
    assert("align-content"@ != "grid-row-end"@) by { reveal_strlit("align-content"); assert("align-content"@.len() != "grid-row-end"@.len()); }
    assert("justify-content"@ != "grid-row-end"@) by { reveal_strlit("justify-content"); assert("justify-content"@.len() != "grid-row-end"@.len()); }
    assert("margin"@ != "grid-row-end"@) by { reveal_strlit("margin"); assert("margin"@.len() != "grid-row-end"@.len()); }
    assert("margin-left"@ != "grid-row-end"@) by { reveal_strlit("margin-left"); assert("margin-left"@.len() != "grid-row-end"@.len()); }
    assert("margin-right"@ != "grid-row-end"@) by { reveal_strlit("margin-right"); assert("margin-right"@[0] != "grid-row-end"@[0]); }
    assert("margin-top"@ != "grid-row-end"@) by { reveal_strlit("margin-top"); assert("margin-top"@.len() != "grid-row-end"@.len()); }
    assert("margin-bottom"@ != "grid-row-end"@) by { reveal_strlit("margin-bottom"); assert("margin-bottom"@.len() != "grid-row-end"@.len()); }
    assert("padding"@ != "grid-row-end"@) by { reveal_strlit("padding"); assert("padding"@.len() != "grid-row-end"@.len()); }
    assert("padding-left"@ != "grid-row-end"@) by { reveal_strlit("padding-left"); assert("padding-left"@[0] != "grid-row-end"@[0]); }
    assert("padding-right"@ != "grid-row-end"@) by { reveal_strlit("padding-right"); assert("padding-right"@.len() != "grid-row-end"@.len()); }
    assert("padding-top"@ != "grid-row-end"@) by { reveal_strlit("padding-top"); assert("padding-top"@.len() != "grid-row-end"@.len()); }
    assert("padding-bottom"@ != "grid-row-end"@) by { reveal_strlit("padding-bottom"); assert("padding-bottom"@.len() != "grid-row-end"@.len()); }
    assert("border"@ != "grid-row-end"@) by { reveal_strlit("border"); assert("border"@.len() != "grid-row-end"@.len()); }
    assert("border-left"@ != "grid-row-end"@) by { reveal_strlit("border-left"); assert("border-left"@.len() != "grid-row-end"@.len()); }
    assert("border-right"@ != "grid-row-end"@) by { reveal_strlit("border-right"); assert("border-right"@[0] != "grid-row-end"@[0]); }
    assert("border-top"@ != "grid-row-end"@) by { reveal_strlit("border-top"); assert("border-top"@.len() != "grid-row-end"@.len()); }
    assert("border-bottom"@ != "grid-row-end"@) by { reveal_strlit("border-bottom"); assert("border-bottom"@.len() != "grid-row-end"@.len()); }
    assert("flex-direction"@ != "grid-row-end"@) by { reveal_strlit("flex-direction"); assert("flex-direction"@.len() != "grid-row-end"@.len()); }
    assert("flex-wrap"@ != "grid-row-end"@) by { reveal_strlit("flex-wrap"); assert("flex-wrap"@.len() != "grid-row-end"@.len()); }
    assert("flex"@ != "grid-row-end"@) by { reveal_strlit("flex"); assert("flex"@.len() != "grid-row-end"@.len()); }
    assert("flex-grow"@ != "grid-row-end"@) by { reveal_strlit("flex-grow"); assert("flex-grow"@.len() != "grid-row-end"@.len()); }
    assert("flex-shrink"@ != "grid-row-end"@) by { reveal_strlit("flex-shrink"); assert("flex-shrink"@.len() != "grid-row-end"@.len()); }
    assert("flex-basis"@ != "grid-row-end"@) by { reveal_strlit("flex-basis"); assert("flex-basis"@.len() != "grid-row-end"@.len()); }
    assert("row-gap"@ != "grid-row-end"@) by { reveal_strlit("row-gap"); assert("row-gap"@.len() != "grid-row-end"@.len()); }
    assert("column-gap"@ != "grid-row-end"@) by { reveal_strlit("column-gap"); assert("column-gap"@.len() != "grid-row-end"@.len()); }
    assert("gap"@ != "grid-row-end"@) by { reveal_strlit("gap"); assert("gap"@.len() != "grid-row-end"@.len()); }
    assert("grid-auto-flow"@ != "grid-row-end"@) by { reveal_strlit("grid-auto-flow"); assert("grid-auto-flow"@.len() != "grid-row-end"@.len()); }
    assert("grid-row"@ != "grid-row-end"@) by { reveal_strlit("grid-row"); assert("grid-row"@.len() != "grid-row-end"@.len()); }
    assert("grid-row-start"@ != "grid-row-end"@) by { reveal_strlit("grid-row-start"); assert("grid-row-start"@.len() != "grid-row-end"@.len()); }
    assert("grid-row-span"@ != "grid-row-end"@) by { reveal_strlit("grid-row-span"); assert("grid-row-span"@.len() != "grid-row-end"@.len()); }
}

proof fn lemma_name_grid_column(name: Seq<u8>)
    requires
        byte_text(name) == "grid-column"@,
    ensures
        prop_named(name) == Some(Prop::GridColumn),
{
    reveal_strlit("grid-column");
    assert("background-color"@ != "grid-column"@) by { reveal_strlit("background-color"); assert("background-color"@.len() != "grid-column"@.len()); }
    assert("border-color"@ != "grid-column"@) by { reveal_strlit("border-color"); assert("border-color"@.len() != "grid-column"@.len()); }
    assert("z-index"@ != "grid-column"@) by { reveal_strlit("z-index"); assert("z-index"@.len() != "grid-column"@.len()); }
    assert("display"@ != "grid-column"@) by { reveal_strlit("display"); assert("display"@.len() != "grid-column"@.len()); }
    assert("position"@ != "grid-column"@) by { reveal_strlit("position"); assert("position"@.len() != "grid-column"@.len()); }
    assert("overflow"@ != "grid-column"@) by { reveal_strlit("overflow"); assert("overflow"@.len() != "grid-column"@.len()); }
    assert("overflow-x"@ != "grid-column"@) by { reveal_strlit("overflow-x"); assert("overflow-x"@.len() != "grid-column"@.len()); }
    assert("overflow-y"@ != "grid-column"@) by { reveal_strlit("overflow-y"); assert("overflow-y"@.len() != "grid-column"@.len()); }
    assert("direction"@ != "grid-column"@) by { reveal_strlit("direction"); assert("direction"@.len() != "grid-column"@.len()); }
    assert("left"@ != "grid-column"@) by { reveal_strlit("left"); assert("left"@.len() != "grid-column"@.len()); }
    assert("right"@ != "grid-column"@) by { reveal_strlit("right"); assert("right"@.len() != "grid-column"@.len()); }
    assert("top"@ != "grid-column"@) by { reveal_strlit("top"); assert("top"@.len() != "grid-column"@.len()); }
    assert("bottom"@ != "grid-column"@) by { reveal_strlit("bottom"); assert("bottom"@.len() != "grid-column"@.len()); }
    assert("width"@ != "grid-column"@) by { reveal_strlit("width"); assert("width"@.len() != "grid-column"@.len()); }
    assert("height"@ != "grid-column"@) by { reveal_strlit("height"); assert("height"@.len() != "grid-column"@.len()); }
    assert("min-width"@ != "grid-column"@) by { reveal_strlit("min-width"); assert("min-width"@.len() != "grid-column"@.len()); }
    assert("min-height"@ != "grid-column"@) by { reveal_strlit("min-height"); assert("min-height"@.len() != "grid-column"@.len()); }
    assert("max-width"@ != "grid-column"@) by { reveal_strlit("max-width"); assert("max-width"@.len() != "grid-column"@.len()); }
    assert("max-height"@ != "grid-column"@) by { reveal_strlit("max-height"); assert("max-height"@.len() != "grid-column"@.len()); }
    assert("align-items"@ != "grid-column"@) by { reveal_strlit("align-items"); assert("align-items"@[0] != "grid-column"@[0]); }
    assert("justify-items"@ != "grid-column"@) by { reveal_strlit("justify-items"); assert("justify-items"@.len() != "grid-column"@.len()); }
    assert("align-self"@ != "grid-column"@) by { reveal_strlit("align-self"); assert("align-self"@.len() != "grid-column"@.len()); }
    assert("justify-self"@ != "grid-column"@) by { reveal_strlit("justify-self"); assert("justify-self"@.len() != "grid-column"@.len()); }
    assert("align-content"@ != "grid-column"@) by { reveal_strlit("align-content"); assert("align-content"@.len() != "grid-column"@.len()); }
    assert("justify-content"@ != "grid-column"@) by { reveal_strlit("justify-content"); assert("justify-content"@.len() != "grid-column"@.len()); }
    assert("margin"@ != "grid-column"@) by { reveal_strlit("margin"); assert("margin"@.len() != "grid-column"@.len()); }
    assert("margin-left"@ != "grid-column"@) by { reveal_strlit("margin-left"); assert("margin-left"@[0] != "grid-column"@[0]); }
    assert("margin-right"@ != "grid-column"@) by { reveal_strlit("margin-right"); assert("margin-right"@.len() != "grid-column"@.len()); }
    assert("margin-top"@ != "grid-column"@) by { reveal_strlit("margin-top"); assert("margin-top"@.len() != "grid-column"@.len()); }
    assert("margin-bottom"@ != "grid-column"@) by { reveal_strlit("margin-bottom"); assert("margin-bottom"@.len() != "grid-column"@.len()); }
    assert("padding"@ != "grid-column"@) by { reveal_strlit("padding"); assert("padding"@.len() != "grid-column"@.len()); }
    assert("padding-left"@ != "grid-column"@) by { reveal_strlit("padding-left"); assert("padding-left"@.len() != "grid-column"@.len()); }
    assert("padding-right"@ != "grid-column"@) by { reveal_strlit("padding-right"); assert("padding-right"@.len() != "grid-column"@.len()); }
    assert("padding-top"@ != "grid-column"@) by { reveal_strlit("padding-top"); assert("padding-top"@[0] != "grid-column"@[0]); }
    assert("padding-bottom"@ != "grid-column"@) by { reveal_strlit("padding-bottom"); assert("padding-bottom"@.len() != "grid-column"@.len()); }
    assert("border"@ != "grid-column"@) by { reveal_strlit("border"); assert("border"@.len() != "grid-column"@.len()); }
    assert("border-left"@ != "grid-column"@) by { reveal_strlit("border-left"); assert("border-left"@[0] != "grid-column"@[0]); }
    assert("border-right"@ != "grid-column"@) by { reveal_strlit("border-right"); assert("border-right"@.len() != "grid-column"@.len()); }
    assert("border-top"@ != "grid-column"@) by { reveal_strlit("border-top"); assert("border-top"@.len() != "grid-column"@.len()); }
    assert("border-bottom"@ != "grid-column"@) by { reveal_strlit("border-bottom"); assert("border-bottom"@.len() != "grid-column"@.len()); }
    assert("flex-direction"@ != "grid-column"@) by { reveal_strlit("flex-direction"); assert("flex-direction"@.len() != "grid-column"@.len()); }
    assert("flex-wrap"@ != "grid-column"@) by { reveal_strlit("flex-wrap"); assert("flex-wrap"@.len() != "grid-column"@.len()); }
    assert("flex"@ != "grid-column"@) by { reveal_strlit("flex"); assert("flex"@.len() != "grid-column"@.len()); }
    assert("flex-grow"@ != "grid-column"@) by { reveal_strlit("flex-grow"); assert("flex-grow"@.len() != "grid-column"@.len()); }
    assert("flex-shrink"@ != "grid-column"@) by { reveal_strlit("flex-shrink"); assert("flex-shrink"@[0] != "grid-column"@[0]); }
    assert("flex-basis"@ != "grid-column"@) by { reveal_strlit("flex-basis"); assert("flex-basis"@.len() != "grid-column"@.len()); }
    assert("row-gap"@ != "grid-column"@) by { reveal_strlit("row-gap"); assert("row-gap"@.len() != "grid-column"@.len()); }
    assert("column-gap"@ != "grid-column"@) by { reveal_strlit("column-gap"); assert("column-gap"@.len() != "grid-column"@.len()); }
    assert("gap"@ != "grid-column"@) by { reveal_strlit("gap"); assert("gap"@.len() != "grid-column"@.len()); }
    assert("grid-auto-flow"@ != "grid-column"@) by { reveal_strlit("grid-auto-flow"); assert("grid-auto-flow"@.len() != "grid-column"@.len()); }
    assert("grid-row"@ != "grid-column"@) by { reveal_strlit("grid-row"); assert("grid-row"@.len() != "grid-column"@.len()); }
    assert("grid-row-start"@ != "grid-column"@) by { reveal_strlit("grid-row-start"); assert("grid-row-start"@.len() != "grid-column"@.len()); }
    assert("grid-row-span"@ != "grid-column"@) by { reveal_strlit("grid-row-span"); assert("grid-row-span"@.len() != "grid-column"@.len()); }
    assert("grid-row-end"@ != "grid-column"@) by { reveal_strlit("grid-row-end"); assert("grid-row-end"@.len() != "grid-column"@.len()); }
}

proof fn lemma_name_grid_column_start(name: Seq<u8>)
    requires
        byte_text(name) == "grid-column-start"@,
    ensures
        prop_named(name) == Some(Prop::GridColumnStart),
{
    reveal_strlit("grid-column-start");
    assert("background-color"@ != "grid-column-start"@) by { reveal_strlit("background-color"); assert("background-color"@.len() != "grid-column-start"@.len()); }
    assert("border-color"@ != "grid-column-start"@) by { reveal_strlit("border-color"); assert("border-color"@.len() != "grid-column-start"@.len()); }
    assert("z-index"@ != "grid-column-start"@) by { reveal_strlit("z-index"); assert("z-index"@.len() != "grid-column-start"@.len()); }
    assert("display"@ != "grid-column-start"@) by { reveal_strlit("display"); assert("display"@.len() != "grid-column-start"@.len()); }
    assert("position"@ != "grid-column-start"@) by { reveal_strlit("position"); assert("position"@.len() != "grid-column-start"@.len()); }
    assert("overflow"@ != "grid-column-start"@) by { reveal_strlit("overflow"); assert("overflow"@.len() != "grid-column-start"@.len()); }
    assert("overflow-x"@ != "grid-column-start"@) by { reveal_strlit("overflow-x"); assert("overflow-x"@.len() != "grid-column-start"@.len()); }
    assert("overflow-y"@ != "grid-column-start"@) by { reveal_strlit("overflow-y"); assert("overflow-y"@.len() != "grid-column-start"@.len()); }
    assert("direction"@ != "grid-column-start"@) by { reveal_strlit("direction"); assert("direction"@.len() != "grid-column-start"@.len()); }
    assert("left"@ != "grid-column-start"@) by { reveal_strlit("left"); assert("left"@.len() != "grid-column-start"@.len()); }
    assert("right"@ != "grid-column-start"@) by { reveal_strlit("right"); assert("right"@.len() != "grid-column-start"@.len()); }
    assert("top"@ != "grid-column-start"@) by { reveal_strlit("top"); assert("top"@.len() != "grid-column-start"@.len()); }
    assert("bottom"@ != "grid-column-start"@) by { reveal_strlit("bottom"); assert("bottom"@.len() != "grid-column-start"@.len()); }
    assert("width"@ != "grid-column-start"@) by { reveal_strlit("width"); assert("width"@.len() != "grid-column-start"@.len()); }
    assert("height"@ != "grid-column-start"@) by { reveal_strlit("height"); assert("height"@.len() != "grid-column-start"@.len()); }
    assert("min-width"@ != "grid-column-start"@) by { reveal_strlit("min-width"); assert("min-width"@.len() != "grid-column-start"@.len()); }
    assert("min-height"@ != "grid-column-start"@) by { reveal_strlit("min-height"); assert("min-height"@.len() != "grid-column-start"@.len()); }
    assert("max-width"@ != "grid-column-start"@) by { reveal_strlit("max-width"); assert("max-width"@.len() != "grid-column-start"@.len()); }
    assert("max-height"@ != "grid-column-start"@) by { reveal_strlit("max-height"); assert("max-height"@.len() != "grid-column-start"@.len()); }
    assert("align-items"@ != "grid-column-start"@) by { reveal_strlit("align-items"); assert("align-items"@.len() != "grid-column-start"@.len()); }
    assert("justify-items"@ != "grid-column-start"@) by { reveal_strlit("justify-items"); assert("justify-items"@.len() != "grid-column-start"@.len()); }
    assert("align-self"@ != "grid-column-start"@) by { reveal_strlit("align-self"); assert("align-self"@.len() != "grid-column-start"@.len()); }
    assert("justify-self"@ != "grid-column-start"@) by { reveal_strlit("justify-self"); assert("justify-self"@.len() != "grid-column-start"@.len()); }
    assert("align-content"@ != "grid-column-start"@) by { reveal_strlit("align-content"); assert("align-content"@.len() != "grid-column-start"@.len()); }
    assert("justify-content"@ != "grid-column-start"@) by { reveal_strlit("justify-content"); assert("justify-content"@.len() != "grid-column-start"@.len()); }
    assert("margin"@ != "grid-column-start"@) by { reveal_strlit("margin"); assert("margin"@.len() != "grid-column-start"@.len()); }
    assert("margin-left"@ != "grid-column-start"@) by { reveal_strlit("margin-left"); assert("margin-left"@.len() != "grid-column-start"@.len()); }
    assert("margin-right"@ != "grid-column-start"@) by { reveal_strlit("margin-right"); assert("margin-right"@.len() != "grid-column-start"@.len()); }
    assert("margin-top"@ != "grid-column-start"@) by { reveal_strlit("margin-top"); assert("margin-top"@.len() != "grid-column-start"@.len()); }
    assert("margin-bottom"@ != "grid-column-start"@) by { reveal_strlit("margin-bottom"); assert("margin-bottom"@.len() != "grid-column-start"@.len()); }
    assert("padding"@ != "grid-column-start"@) by { reveal_strlit("padding"); assert("padding"@.len() != "grid-column-start"@.len()); }
    assert("padding-left"@ != "grid-column-start"@) by { reveal_strlit("padding-left"); assert("padding-left"@.len() != "grid-column-start"@.len()); }
    assert("padding-right"@ != "grid-column-start"@) by { reveal_strlit("padding-right"); assert("padding-right"@.len() != "grid-column-start"@.len()); }
    assert("padding-top"@ != "grid-column-start"@) by { reveal_strlit("padding-top"); assert("padding-top"@.len() != "grid-column-start"@.len()); }
    assert("padding-bottom"@ != "grid-column-start"@) by { reveal_strlit("padding-bottom"); assert("padding-bottom"@.len() != "grid-column-start"@.len()); }
    assert("border"@ != "grid-column-start"@) by { reveal_strlit("border"); assert("border"@.len() != "grid-column-start"@.len()); }
    assert("border-left"@ != "grid-column-start"@) by { reveal_strlit("border-left"); assert("border-left"@.len() != "grid-column-start"@.len()); }
    assert("border-right"@ != "grid-column-start"@) by { reveal_strlit("border-right"); assert("border-right"@.len() != "grid-column-start"@.len()); }
    assert("border-top"@ != "grid-column-start"@) by { reveal_strlit("border-top"); assert("border-top"@.len() != "grid-column-start"@.len()); }
    assert("border-bottom"@ != "grid-column-start"@) by { reveal_strlit("border-bottom"); assert("border-bottom"@.len() != "grid-column-start"@.len()); }
    assert("flex-direction"@ != "grid-column-start"@) by { reveal_strlit("flex-direction"); assert("flex-direction"@.len() != "grid-column-start"@.len()); }
    assert("flex-wrap"@ != "grid-column-start"@) by { reveal_strlit("flex-wrap"); assert("flex-wrap"@.len() != "grid-column-start"@.len()); }
    assert("flex"@ != "grid-column-start"@) by { reveal_strlit("flex"); assert("flex"@.len() != "grid-column-start"@.len()); }
    assert("flex-grow"@ != "grid-column-start"@) by { reveal_strlit("flex-grow"); assert("flex-grow"@.len() != "grid-column-start"@.len()); }
    assert("flex-shrink"@ != "grid-column-start"@) by { reveal_strlit("flex-shrink"); assert("flex-shrink"@.len() != "grid-column-start"@.len()); }
    assert("flex-basis"@ != "grid-column-start"@) by { reveal_strlit("flex-basis"); assert("flex-basis"@.len() != "grid-column-start"@.len()); }
    assert("row-gap"@ != "grid-column-start"@) by { reveal_strlit("row-gap"); assert("row-gap"@.len() != "grid-column-start"@.len()); }
    assert("column-gap"@ != "grid-column-start"@) by { reveal_strlit("column-gap"); assert("column-gap"@.len() != "grid-column-start"@.len()); }
    assert("gap"@ != "grid-column-start"@) by { reveal_strlit("gap"); assert("gap"@.len() != "grid-column-start"@.len()); }
    assert("grid-auto-flow"@ != "grid-column-start"@) by { reveal_strlit("grid-auto-flow"); assert("grid-auto-flow"@.len() != "grid-column-start"@.len()); }
    assert("grid-row"@ != "grid-column-start"@) by { reveal_strlit("grid-row"); assert("grid-row"@.len() != "grid-column-start"@.len()); }
    assert("grid-row-start"@ != "grid-column-start"@) by { reveal_strlit("grid-row-start"); assert("grid-row-start"@.len() != "grid-column-start"@.len()); }
    assert("grid-row-span"@ != "grid-column-start"@) by { reveal_strlit("grid-row-span"); assert("grid-row-span"@.len() != "grid-column-start"@.len()); }
    assert("grid-row-end"@ != "grid-column-start"@) by { reveal_strlit("grid-row-end"); assert("grid-row-end"@.len() != "grid-column-start"@.len()); }
    assert("grid-column"@ != "grid-column-start"@) by { reveal_strlit("grid-column"); assert("grid-column"@.len() != "grid-column-start"@.len()); }
}

proof fn lemma_name_grid_column_span(name: Seq<u8>)
    requires
        byte_text(name) == "grid-column-span"@,
    ensures
        prop_named(name) == Some(Prop::GridColumnSpan),
{
    reveal_strlit("grid-column-span");
    assert("background-color"@ != "grid-column-span"@) by { reveal_strlit("background-color"); assert("background-color"@[0] != "grid-column-span"@[0]); }
    assert("border-color"@ != "grid-column-span"@) by { reveal_strlit("border-color"); assert("border-color"@.len() != "grid-column-span"@.len()); }
    assert("z-index"@ != "grid-column-span"@) by { reveal_strlit("z-index"); assert("z-index"@.len() != "grid-column-span"@.len()); }
    assert("display"@ != "grid-column-span"@) by { reveal_strlit("display"); assert("display"@.len() != "grid-column-span"@.len()); }
    assert("position"@ != "grid-column-span"@) by { reveal_strlit("position"); assert("position"@.len() != "grid-column-span"@.len()); }
    assert("overflow"@ != "grid-column-span"@) by { reveal_strlit("overflow"); assert("overflow"@.len() != "grid-column-span"@.len()); }
    assert("overflow-x"@ != "grid-column-span"@) by { reveal_strlit("overflow-x"); assert("overflow-x"@.len() != "grid-column-span"@.len()); }
    assert("overflow-y"@ != "grid-column-span"@) by { reveal_strlit("overflow-y"); assert("overflow-y"@.len() != "grid-column-span"@.len()); }
    assert("direction"@ != "grid-column-span"@) by { reveal_strlit("direction"); assert("direction"@.len() != "grid-column-span"@.len()); }
    assert("left"@ != "grid-column-span"@) by { reveal_strlit("left"); assert("left"@.len() != "grid-column-span"@.len()); }
    assert("right"@ != "grid-column-span"@) by { reveal_strlit("right"); assert("right"@.len() != "grid-column-span"@.len()); }
    assert("top"@ != "grid-column-span"@) by { reveal_strlit("top"); assert("top"@.len() != "grid-column-span"@.len()); }
    assert("bottom"@ != "grid-column-span"@) by { reveal_strlit("bottom"); assert("bottom"@.len() != "grid-column-span"@.len()); }
    assert("width"@ != "grid-column-span"@) by { reveal_strlit("width"); assert("width"@.len() != "grid-column-span"@.len()); }
    assert("height"@ != "grid-column-span"@) by { reveal_strlit("height"); assert("height"@.len() != "grid-column-span"@.len()); }
    assert("min-width"@ != "grid-column-span"@) by { reveal_strlit("min-width"); assert("min-width"@.len() != "grid-column-span"@.len()); }
    assert("min-height"@ != "grid-column-span"@) by { reveal_strlit("min-height"); assert("min-height"@.len() != "grid-column-span"@.len()); }
    assert("max-width"@ != "grid-column-span"@) by { reveal_strlit("max-width"); assert("max-width"@.len() != "grid-column-span"@.len()); }
    assert("max-height"@ != "grid-column-span"@) by { reveal_strlit("max-height"); assert("max-height"@.len() != "grid-column-span"@.len()); }
    assert("align-items"@ != "grid-column-span"@) by { reveal_strlit("align-items"); assert("align-items"@.len() != "grid-column-span"@.len()); }
    assert("justify-items"@ != "grid-column-span"@) by { reveal_strlit("justify-items"); assert("justify-items"@.len() != "grid-column-span"@.len()); }
    assert("align-self"@ != "grid-column-span"@) by { reveal_strlit("align-self"); assert("align-self"@.len() != "grid-column-span"@.len()); }
    assert("justify-self"@ != "grid-column-span"@) by { reveal_strlit("justify-self"); assert("justify-self"@.len() != "grid-column-span"@.len()); }
    assert("align-content"@ != "grid-column-span"@) by { reveal_strlit("align-content"); assert("align-content"@.len() != "grid-column-span"@.len()); }
    assert("justify-content"@ != "grid-column-span"@) by { reveal_strlit("justify-content"); assert("justify-content"@.len() != "grid-column-span"@.len()); }
    assert("margin"@ != "grid-column-span"@) by { reveal_strlit("margin"); assert("margin"@.len() != "grid-column-span"@.len()); }
    assert("margin-left"@ != "grid-column-span"@) by { reveal_strlit("margin-left"); assert("margin-left"@.len() != "grid-column-span"@.len()); }
    assert("margin-right"@ != "grid-column-span"@) by { reveal_strlit("margin-right"); assert("margin-right"@.len() != "grid-column-span"@.len()); }
    assert("margin-top"@ != "grid-column-span"@) by { reveal_strlit("margin-top"); assert("margin-top"@.len() != "grid-column-span"@.len()); }
    assert("margin-bottom"@ != "grid-column-span"@) by { reveal_strlit("margin-bottom"); assert("margin-bottom"@.len() != "grid-column-span"@.len()); }
    assert("padding"@ != "grid-column-span"@) by { reveal_strlit("padding"); assert("padding"@.len() != "grid-column-span"@.len()); }
    assert("padding-left"@ != "grid-column-span"@) by { reveal_strlit("padding-left"); assert("padding-left"@.len() != "grid-column-span"@.len()); }
    assert("padding-right"@ != "grid-column-span"@) by { reveal_strlit("padding-right"); assert("padding-right"@.len() != "grid-column-span"@.len()); }
    assert("padding-top"@ != "grid-column-span"@) by { reveal_strlit("padding-top"); assert("padding-top"@.len() != "grid-column-span"@.len()); }
    assert("padding-bottom"@ != "grid-column-span"@) by { reveal_strlit("padding-bottom"); assert("padding-bottom"@.len() != "grid-column-span"@.len()); }
    assert("border"@ != "grid-column-span"@) by { reveal_strlit("border"); assert("border"@.len() != "grid-column-span"@.len()); }
    assert("border-left"@ != "grid-column-span"@) by { reveal_strlit("border-left"); assert("border-left"@.len() != "grid-column-span"@.len()); }
    assert("border-right"@ != "grid-column-span"@) by { reveal_strlit("border-right"); assert("border-right"@.len() != "grid-column-span"@.len()); }
    assert("border-top"@ != "grid-column-span"@) by { reveal_strlit("border-top"); assert("border-top"@.len() != "grid-column-span"@.len()); }
    assert("border-bottom"@ != "grid-column-span"@) by { reveal_strlit("border-bottom"); assert("border-bottom"@.len() != "grid-column-span"@.len()); }
    assert("flex-direction"@ != "grid-column-span"@) by { reveal_strlit("flex-direction"); assert("flex-direction"@.len() != "grid-column-span"@.len()); }
    assert("flex-wrap"@ != "grid-column-span"@) by { reveal_strlit("flex-wrap"); assert("flex-wrap"@.len() != "grid-column-span"@.len()); }
    assert("flex"@ != "grid-column-span"@) by { reveal_strlit("flex"); assert("flex"@.len() != "grid-column-span"@.len()); }
    assert("flex-grow"@ != "grid-column-span"@) by { reveal_strlit("flex-grow"); assert("flex-grow"@.len() != "grid-column-span"@.len()); }
    assert("flex-shrink"@ != "grid-column-span"@) by { reveal_strlit("flex-shrink"); assert("flex-shrink"@.len() != "grid-column-span"@.len()); }
    assert("flex-basis"@ != "grid-column-span"@) by { reveal_strlit("flex-basis"); assert("flex-basis"@.len() != "grid-column-span"@.len()); }
    assert("row-gap"@ != "grid-column-span"@) by { reveal_strlit("row-gap"); assert("row-gap"@.len() != "grid-column-span"@.len()); }
    assert("column-gap"@ != "grid-column-span"@) by { reveal_strlit("column-gap"); assert("column-gap"@.len() != "grid-column-span"@.len()); }
    assert("gap"@ != "grid-column-span"@) by { reveal_strlit("gap"); assert("gap"@.len() != "grid-column-span"@.len()); }
    assert("grid-auto-flow"@ != "grid-column-span"@) by { reveal_strlit("grid-auto-flow"); assert("grid-auto-flow"@.len() != "grid-column-span"@.len()); }
    assert("grid-row"@ != "grid-column-span"@) by { reveal_strlit("grid-row"); assert("grid-row"@.len() != "grid-column-span"@.len()); }
    assert("grid-row-start"@ != "grid-column-span"@) by { reveal_strlit("grid-row-start"); assert("grid-row-start"@.len() != "grid-column-span"@.len()); }
    assert("grid-row-span"@ != "grid-column-span"@) by { reveal_strlit("grid-row-span"); assert("grid-row-span"@.len() != "grid-column-span"@.len()); }
    assert("grid-row-end"@ != "grid-column-span"@) by { reveal_strlit("grid-row-end"); assert("grid-row-end"@.len() != "grid-column-span"@.len()); }
    assert("grid-column"@ != "grid-column-span"@) by { reveal_strlit("grid-column"); assert("grid-column"@.len() != "grid-column-span"@.len()); }
    assert("grid-column-start"@ != "grid-column-span"@) by { reveal_strlit("grid-column-start"); assert("grid-column-start"@.len() != "grid-column-span"@.len()); }
}

proof fn lemma_name_grid_column_end(name: Seq<u8>)
    requires
        byte_text(name) == "grid-column-end"@,
    ensures
        prop_named(name) == Some(Prop::GridColumnEnd),
{
    reveal_strlit("grid-column-end");
    assert("background-color"@ != "grid-column-end"@) by { reveal_strlit("background-color"); assert("background-color"@.len() != "grid-column-end"@.len()); }
    assert("border-color"@ != "grid-column-end"@) by { reveal_strlit("border-color"); assert("border-color"@.len() != "grid-column-end"@.len()); }
    assert("z-index"@ != "grid-column-end"@) by { reveal_strlit("z-index"); assert("z-index"@.len() != "grid-column-end"@.len()); }
    assert("display"@ != "grid-column-end"@) by { reveal_strlit("display"); assert("display"@.len() != "grid-column-end"@.len()); }
    assert("position"@ != "grid-column-end"@) by { reveal_strlit("position"); assert("position"@.len() != "grid-column-end"@.len()); }
    assert("overflow"@ != "grid-column-end"@) by { reveal_strlit("overflow"); assert("overflow"@.len() != "grid-column-end"@.len()); }
    assert("overflow-x"@ != "grid-column-end"@) by { reveal_strlit("overflow-x"); assert("overflow-x"@.len() != "grid-column-end"@.len()); }
    assert("overflow-y"@ != "grid-column-end"@) by { reveal_strlit("overflow-y"); assert("overflow-y"@.len() != "grid-column-end"@.len()); }
    assert("direction"@ != "grid-column-end"@) by { reveal_strlit("direction"); assert("direction"@.len() != "grid-column-end"@.len()); }
    assert("left"@ != "grid-column-end"@) by { reveal_strlit("left"); assert("left"@.len() != "grid-column-end"@.len()); }
    assert("right"@ != "grid-column-end"@) by { reveal_strlit("right"); assert("right"@.len() != "grid-column-end"@.len()); }
    assert("top"@ != "grid-column-end"@) by { reveal_strlit("top"); assert("top"@.len() != "grid-column-end"@.len()); }
    assert("bottom"@ != "grid-column-end"@) by { reveal_strlit("bottom"); assert("bottom"@.len() != "grid-column-end"@.len()); }
    assert("width"@ != "grid-column-end"@) by { reveal_strlit("width"); assert("width"@.len() != "grid-column-end"@.len()); }
    assert("height"@ != "grid-column-end"@) by { reveal_strlit("height"); assert("height"@.len() != "grid-column-end"@.len()); }
    assert("min-width"@ != "grid-column-end"@) by { reveal_strlit("min-width"); assert("min-width"@.len() != "grid-column-end"@.len()); }
    assert("min-height"@ != "grid-column-end"@) by { reveal_strlit("min-height"); assert("min-height"@.len() != "grid-column-end"@.len()); }
    assert("max-width"@ != "grid-column-end"@) by { reveal_strlit("max-width"); assert("max-width"@.len() != "grid-column-end"@.len()); }
    assert("max-height"@ != "grid-column-end"@) by { reveal_strlit("max-height"); assert("max-height"@.len() != "grid-column-end"@.len()); }
    assert("align-items"@ != "grid-column-end"@) by { reveal_strlit("align-items"); assert("align-items"@.len() != "grid-column-end"@.len()); }
    assert("justify-items"@ != "grid-column-end"@) by { reveal_strlit("justify-items"); assert("justify-items"@.len() != "grid-column-end"@.len()); }
    assert("align-self"@ != "grid-column-end"@) by { reveal_strlit("align-self"); assert("align-self"@.len() != "grid-column-end"@.len()); }
    assert("justify-self"@ != "grid-column-end"@) by { reveal_strlit("justify-self"); assert("justify-self"@.len() != "grid-column-end"@.len()); }
    assert("align-content"@ != "grid-column-end"@) by { reveal_strlit("align-content"); assert("align-content"@.len() != "grid-column-end"@.len()); }
    assert("justify-content"@ != "grid-column-end"@) by { reveal_strlit("justify-content"); assert("justify-content"@[0] != "grid-column-end"@[0]); }
    assert("margin"@ != "grid-column-end"@) by { reveal_strlit("margin"); assert("margin"@.len() != "grid-column-end"@.len()); }
    assert("margin-left"@ != "grid-column-end"@) by { reveal_strlit("margin-left"); assert("margin-left"@.len() != "grid-column-end"@.len()); }
    assert("margin-right"@ != "grid-column-end"@) by { reveal_strlit("margin-right"); assert("margin-right"@.len() != "grid-column-end"@.len()); }
    assert("margin-top"@ != "grid-column-end"@) by { reveal_strlit("margin-top"); assert("margin-top"@.len() != "grid-column-end"@.len()); }
    assert("margin-bottom"@ != "grid-column-end"@) by { reveal_strlit("margin-bottom"); assert("margin-bottom"@.len() != "grid-column-end"@.len()); }
    assert("padding"@ != "grid-column-end"@) by { reveal_strlit("padding"); assert("padding"@.len() != "grid-column-end"@.len()); }
    assert("padding-left"@ != "grid-column-end"@) by { reveal_strlit("padding-left"); assert("padding-left"@.len() != "grid-column-end"@.len()); }
    assert("padding-right"@ != "grid-column-end"@) by { reveal_strlit("padding-right"); assert("padding-right"@.len() != "grid-column-end"@.len()); }
    assert("padding-top"@ != "grid-column-end"@) by { reveal_strlit("padding-top"); assert("padding-top"@.len() != "grid-column-end"@.len()); }
    assert("padding-bottom"@ != "grid-column-end"@) by { reveal_strlit("padding-bottom"); assert("padding-bottom"@.len() != "grid-column-end"@.len()); }
    assert("border"@ != "grid-column-end"@) by { reveal_strlit("border"); assert("border"@.len() != "grid-column-end"@.len()); }
    assert("border-left"@ != "grid-column-end"@) by { reveal_strlit("border-left"); assert("border-left"@.len() != "grid-column-end"@.len()); }
    assert("border-right"@ != "grid-column-end"@) by { reveal_strlit("border-right"); assert("border-right"@.len() != "grid-column-end"@.len()); }
    assert("border-top"@ != "grid-column-end"@) by { reveal_strlit("border-top"); assert("border-top"@.len() != "grid-column-end"@.len()); }
    assert("border-bottom"@ != "grid-column-end"@) by { reveal_strlit("border-bottom"); assert("border-bottom"@.len() != "grid-column-end"@.len()); }
    assert("flex-direction"@ != "grid-column-end"@) by { reveal_strlit("flex-direction"); assert("flex-direction"@.len() != "grid-column-end"@.len()); }
    assert("flex-wrap"@ != "grid-column-end"@) by { reveal_strlit("flex-wrap"); assert("flex-wrap"@.len() != "grid-column-end"@.len()); }
    assert("flex"@ != "grid-column-end"@) by { reveal_strlit("flex"); assert("flex"@.len() != "grid-column-end"@.len()); }
    assert("flex-grow"@ != "grid-column-end"@) by { reveal_strlit("flex-grow"); assert("flex-grow"@.len() != "grid-column-end"@.len()); }
    assert("flex-shrink"@ != "grid-column-end"@) by { reveal_strlit("flex-shrink"); assert("flex-shrink"@.len() != "grid-column-end"@.len()); }
    assert("flex-basis"@ != "grid-column-end"@) by { reveal_strlit("flex-basis"); assert("flex-basis"@.len() != "grid-column-end"@.len()); }
    assert("row-gap"@ != "grid-column-end"@) by { reveal_strlit("row-gap"); assert("row-gap"@.len() != "grid-column-end"@.len()); }
    assert("column-gap"@ != "grid-column-end"@) by { reveal_strlit("column-gap"); assert("column-gap"@.len() != "grid-column-end"@.len()); }
    assert("gap"@ != "grid-column-end"@) by { reveal_strlit("gap"); assert("gap"@.len() != "grid-column-end"@.len()); }
    assert("grid-auto-flow"@ != "grid-column-end"@) by { reveal_strlit("grid-auto-flow"); assert("grid-auto-flow"@.len() != "grid-column-end"@.len()); }
    assert("grid-row"@ != "grid-column-end"@) by { reveal_strlit("grid-row"); assert("grid-row"@.len() != "grid-column-end"@.len()); }
    assert("grid-row-start"@ != "grid-column-end"@) by { reveal_strlit("grid-row-start"); assert("grid-row-start"@.len() != "grid-column-end"@.len()); }
    assert("grid-row-span"@ != "grid-column-end"@) by { reveal_strlit("grid-row-span"); assert("grid-row-span"@.len() != "grid-column-end"@.len()); }
    assert("grid-row-end"@ != "grid-column-end"@) by { reveal_strlit("grid-row-end"); assert("grid-row-end"@.len() != "grid-column-end"@.len()); }
    assert("grid-column"@ != "grid-column-end"@) by { reveal_strlit("grid-column"); assert("grid-column"@.len() != "grid-column-end"@.len()); }
    assert("grid-column-start"@ != "grid-column-end"@) by { reveal_strlit("grid-column-start"); assert("grid-column-start"@.len() != "grid-column-end"@.len()); }
    assert("grid-column-span"@ != "grid-column-end"@) by { reveal_strlit("grid-column-span"); assert("grid-column-span"@.len() != "grid-column-end"@.len()); }
}

/// The name of a property reads back as that property.
pub proof fn lemma_prop_name_round_trip(p: Prop, name: Seq<u8>)
    requires
        byte_text(name) == p.spec_name(),
    ensures
        prop_named(name) == Some(p),
{
    match p {
        Prop::BackgroundColor => lemma_name_background_color(name),
        Prop::BorderColor => lemma_name_border_color(name),
        Prop::ZIndex => lemma_name_z_index(name),
        Prop::Display => lemma_name_display(name),
        Prop::Position => lemma_name_position(name),
        Prop::Overflow => lemma_name_overflow(name),
        Prop::OverflowX => lemma_name_overflow_x(name),
        Prop::OverflowY => lemma_name_overflow_y(name),
        Prop::Direction => lemma_name_direction(name),
        Prop::Left => lemma_name_left(name),
        Prop::Right => lemma_name_right(name),
        Prop::Top => lemma_name_top(name),
        Prop::Bottom => lemma_name_bottom(name),
        Prop::Width => lemma_name_width(name),
        Prop::Height => lemma_name_height(name),
        Prop::MinWidth => lemma_name_min_width(name),
        Prop::MinHeight => lemma_name_min_height(name),
        Prop::MaxWidth => lemma_name_max_width(name),
        Prop::MaxHeight => lemma_name_max_height(name),
        Prop::AlignItems => lemma_name_align_items(name),
        Prop::JustifyItems => lemma_name_justify_items(name),
        Prop::AlignSelf => lemma_name_align_self(name),
        Prop::JustifySelf => lemma_name_justify_self(name),
        Prop::AlignContent => lemma_name_align_content(name),
        Prop::JustifyContent => lemma_name_justify_content(name),
        Prop::Margin => lemma_name_margin(name),
        Prop::MarginLeft => lemma_name_margin_left(name),
        Prop::MarginRight => lemma_name_margin_right(name),
        Prop::MarginTop => lemma_name_margin_top(name),
        Prop::MarginBottom => lemma_name_margin_bottom(name),
        Prop::Padding => lemma_name_padding(name),
        Prop::PaddingLeft => lemma_name_padding_left(name),
        Prop::PaddingRight => lemma_name_padding_right(name),
        Prop::PaddingTop => lemma_name_padding_top(name),
        Prop::PaddingBottom => lemma_name_padding_bottom(name),
        Prop::Border => lemma_name_border(name),
        Prop::BorderLeft => lemma_name_border_left(name),
        Prop::BorderRight => lemma_name_border_right(name),
        Prop::BorderTop => lemma_name_border_top(name),
        Prop::BorderBottom => lemma_name_border_bottom(name),
        Prop::FlexDirection => lemma_name_flex_direction(name),
        Prop::FlexWrap => lemma_name_flex_wrap(name),
        Prop::FlexGrow => lemma_name_flex_grow(name),
        Prop::FlexShrink => lemma_name_flex_shrink(name),
        Prop::FlexBasis => lemma_name_flex_basis(name),
        Prop::RowGap => lemma_name_row_gap(name),
        Prop::ColumnGap => lemma_name_column_gap(name),
        Prop::Gap => lemma_name_gap(name),
        Prop::GridAutoFlow => lemma_name_grid_auto_flow(name),
        Prop::GridRow => lemma_name_grid_row(name),
        Prop::GridRowStart => lemma_name_grid_row_start(name),
        Prop::GridRowSpan => lemma_name_grid_row_span(name),
        Prop::GridRowEnd => lemma_name_grid_row_end(name),
        Prop::GridColumn => lemma_name_grid_column(name),
        Prop::GridColumnStart => lemma_name_grid_column_start(name),
        Prop::GridColumnSpan => lemma_name_grid_column_span(name),
        Prop::GridColumnEnd => lemma_name_grid_column_end(name),
    }
}

proof fn lemma_same_prop_same_variant(a: StyleAttr, b: StyleAttr)
    requires
        a@.0 == b@.0,
    ensures
        b is BackgroundColor <==> a is BackgroundColor,
        b is BorderColor <==> a is BorderColor,
        b is ZIndex <==> a is ZIndex,
        b is Display <==> a is Display,
        b is Position <==> a is Position,
        b is Overflow <==> a is Overflow,
        b is OverflowX <==> a is OverflowX,
        b is OverflowY <==> a is OverflowY,
        b is Direction <==> a is Direction,
        b is Left <==> a is Left,
        b is Right <==> a is Right,
        b is Top <==> a is Top,
        b is Bottom <==> a is Bottom,
        b is Width <==> a is Width,
        b is Height <==> a is Height,
        b is MinWidth <==> a is MinWidth,
        b is MinHeight <==> a is MinHeight,
        b is MaxWidth <==> a is MaxWidth,
        b is MaxHeight <==> a is MaxHeight,
        b is AlignItems <==> a is AlignItems,
        b is JustifyItems <==> a is JustifyItems,
        b is AlignSelf <==> a is AlignSelf,
        b is JustifySelf <==> a is JustifySelf,
        b is AlignContent <==> a is AlignContent,
        b is JustifyContent <==> a is JustifyContent,
        b is Margin <==> a is Margin,
        b is MarginLeft <==> a is MarginLeft,
        b is MarginRight <==> a is MarginRight,
        b is MarginTop <==> a is MarginTop,
        b is MarginBottom <==> a is MarginBottom,
        b is Padding <==> a is Padding,
        b is PaddingLeft <==> a is PaddingLeft,
        b is PaddingRight <==> a is PaddingRight,
        b is PaddingTop <==> a is PaddingTop,
        b is PaddingBottom <==> a is PaddingBottom,
        b is Border <==> a is Border,
        b is BorderLeft <==> a is BorderLeft,
        b is BorderRight <==> a is BorderRight,
        b is BorderTop <==> a is BorderTop,
        b is BorderBottom <==> a is BorderBottom,
        b is FlexDirection <==> a is FlexDirection,
        b is FlexWrap <==> a is FlexWrap,
        b is FlexGrow <==> a is FlexGrow,
        b is FlexShrink <==> a is FlexShrink,
        b is FlexBasis <==> a is FlexBasis,
        b is RowGap <==> a is RowGap,
        b is ColumnGap <==> a is ColumnGap,
        b is Gap <==> a is Gap,
        b is GridAutoFlow <==> a is GridAutoFlow,
        b is GridRow <==> a is GridRow,
        b is GridRowStart <==> a is GridRowStart,
        b is GridRowSpan <==> a is GridRowSpan,
        b is GridRowEnd <==> a is GridRowEnd,
        b is GridColumn <==> a is GridColumn,
        b is GridColumnStart <==> a is GridColumnStart,
        b is GridColumnSpan <==> a is GridColumnSpan,
        b is GridColumnEnd <==> a is GridColumnEnd,
{
}

proof fn lemma_last_wins_background_color(a: StyleAttr, b: StyleAttr, c: ComputedStyle)
    requires
        a is BackgroundColor,
        b is BackgroundColor,
    ensures
        b.applied(a.applied(c)) == b.applied(c),
{
    reveal(StyleAttr::applied);
}

proof fn lemma_last_wins_border_color(a: StyleAttr, b: StyleAttr, c: ComputedStyle)
    requires
        a is BorderColor,
        b is BorderColor,
    ensures
        b.applied(a.applied(c)) == b.applied(c),
{
    reveal(StyleAttr::applied);
}

proof fn lemma_last_wins_z_index(a: StyleAttr, b: StyleAttr, c: ComputedStyle)
    requires
        a is ZIndex,
        b is ZIndex,
    ensures
        b.applied(a.applied(c)) == b.applied(c),
{
    reveal(StyleAttr::applied);
}

proof fn lemma_last_wins_display(a: StyleAttr, b: StyleAttr, c: ComputedStyle)
    requires
        a is Display,
        b is Display,
    ensures
        b.applied(a.applied(c)) == b.applied(c),
{
    reveal(StyleAttr::applied);
}

proof fn lemma_last_wins_position(a: StyleAttr, b: StyleAttr, c: ComputedStyle)
    requires
        a is Position,
        b is Position,
    ensures
        b.applied(a.applied(c)) == b.applied(c),
{
    reveal(StyleAttr::applied);
}

proof fn lemma_last_wins_overflow(a: StyleAttr, b: StyleAttr, c: ComputedStyle)
    requires
        a is Overflow,
        b is Overflow,
    ensures
        b.applied(a.applied(c)) == b.applied(c),
{
    reveal(StyleAttr::applied);
}

proof fn lemma_last_wins_overflow_x(a: StyleAttr, b: StyleAttr, c: ComputedStyle)
    requires
        a is OverflowX,
        b is OverflowX,
    ensures
        b.applied(a.applied(c)) == b.applied(c),
{
    reveal(StyleAttr::applied);
}

proof fn lemma_last_wins_overflow_y(a: StyleAttr, b: StyleAttr, c: ComputedStyle)
    requires
        a is OverflowY,
        b is OverflowY,
    ensures
        b.applied(a.applied(c)) == b.applied(c),
{
    reveal(StyleAttr::applied);
}

proof fn lemma_last_wins_direction(a: StyleAttr, b: StyleAttr, c: ComputedStyle)
    requires
        a is Direction,
        b is Direction,
    ensures
        b.applied(a.applied(c)) == b.applied(c),
{
    reveal(StyleAttr::applied);
}

proof fn lemma_last_wins_left(a: StyleAttr, b: StyleAttr, c: ComputedStyle)
    requires
        a is Left,
        b is Left,
    ensures
        b.applied(a.applied(c)) == b.applied(c),
{
    reveal(StyleAttr::applied);
}

proof fn lemma_last_wins_right(a: StyleAttr, b: StyleAttr, c: ComputedStyle)
    requires
        a is Right,
        b is Right,
    ensures
        b.applied(a.applied(c)) == b.applied(c),
{
    reveal(StyleAttr::applied);
}

proof fn lemma_last_wins_top(a: StyleAttr, b: StyleAttr, c: ComputedStyle)
    requires
        a is Top,
        b is Top,
    ensures
        b.applied(a.applied(c)) == b.applied(c),
{
    reveal(StyleAttr::applied);
}

proof fn lemma_last_wins_bottom(a: StyleAttr, b: StyleAttr, c: ComputedStyle)
    requires
        a is Bottom,
        b is Bottom,
    ensures
        b.applied(a.applied(c)) == b.applied(c),
{
    reveal(StyleAttr::applied);
}

proof fn lemma_last_wins_width(a: StyleAttr, b: StyleAttr, c: ComputedStyle)
    requires
        a is Width,
        b is Width,
    ensures
        b.applied(a.applied(c)) == b.applied(c),
{
    reveal(StyleAttr::applied);
}

proof fn lemma_last_wins_height(a: StyleAttr, b: StyleAttr, c: ComputedStyle)
    requires
        a is Height,
        b is Height,
    ensures
        b.applied(a.applied(c)) == b.applied(c),
{
    reveal(StyleAttr::applied);
}

proof fn lemma_last_wins_min_width(a: StyleAttr, b: StyleAttr, c: ComputedStyle)
    requires
        a is MinWidth,
        b is MinWidth,
    ensures
        b.applied(a.applied(c)) == b.applied(c),
{
    reveal(StyleAttr::applied);
}

proof fn lemma_last_wins_min_height(a: StyleAttr, b: StyleAttr, c: ComputedStyle)
    requires
        a is MinHeight,
        b is MinHeight,
    ensures
        b.applied(a.applied(c)) == b.applied(c),
{
    reveal(StyleAttr::applied);
}

proof fn lemma_last_wins_max_width(a: StyleAttr, b: StyleAttr, c: ComputedStyle)
    requires
        a is MaxWidth,
        b is MaxWidth,
    ensures
        b.applied(a.applied(c)) == b.applied(c),
{
    reveal(StyleAttr::applied);
}

proof fn lemma_last_wins_max_height(a: StyleAttr, b: StyleAttr, c: ComputedStyle)
    requires
        a is MaxHeight,
        b is MaxHeight,
    ensures
        b.applied(a.applied(c)) == b.applied(c),
{
    reveal(StyleAttr::applied);
}

proof fn lemma_last_wins_align_items(a: StyleAttr, b: StyleAttr, c: ComputedStyle)
    requires
        a is AlignItems,
        b is AlignItems,
    ensures
        b.applied(a.applied(c)) == b.applied(c),
{
    reveal(StyleAttr::applied);
}

proof fn lemma_last_wins_justify_items(a: StyleAttr, b: StyleAttr, c: ComputedStyle)
    requires
        a is JustifyItems,
        b is JustifyItems,
    ensures
        b.applied(a.applied(c)) == b.applied(c),
{
    reveal(StyleAttr::applied);
}

proof fn lemma_last_wins_align_self(a: StyleAttr, b: StyleAttr, c: ComputedStyle)
    requires
        a is AlignSelf,
        b is AlignSelf,
    ensures
        b.applied(a.applied(c)) == b.applied(c),
{
    reveal(StyleAttr::applied);
}

proof fn lemma_last_wins_justify_self(a: StyleAttr, b: StyleAttr, c: ComputedStyle)
    requires
        a is JustifySelf,
        b is JustifySelf,
    ensures
        b.applied(a.applied(c)) == b.applied(c),
{
    reveal(StyleAttr::applied);
}

proof fn lemma_last_wins_align_content(a: StyleAttr, b: StyleAttr, c: ComputedStyle)
    requires
        a is AlignContent,
        b is AlignContent,
    ensures
        b.applied(a.applied(c)) == b.applied(c),
{
    reveal(StyleAttr::applied);
}

proof fn lemma_last_wins_justify_content(a: StyleAttr, b: StyleAttr, c: ComputedStyle)
    requires
        a is JustifyContent,
        b is JustifyContent,
    ensures
        b.applied(a.applied(c)) == b.applied(c),
{
    reveal(StyleAttr::applied);
}

proof fn lemma_last_wins_margin(a: StyleAttr, b: StyleAttr, c: ComputedStyle)
    requires
        a is Margin,
        b is Margin,
    ensures
        b.applied(a.applied(c)) == b.applied(c),
{
    reveal(StyleAttr::applied);
}

proof fn lemma_last_wins_margin_left(a: StyleAttr, b: StyleAttr, c: ComputedStyle)
    requires
        a is MarginLeft,
        b is MarginLeft,
    ensures
        b.applied(a.applied(c)) == b.applied(c),
{
    reveal(StyleAttr::applied);
}

proof fn lemma_last_wins_margin_right(a: StyleAttr, b: StyleAttr, c: ComputedStyle)
    requires
        a is MarginRight,
        b is MarginRight,
    ensures
        b.applied(a.applied(c)) == b.applied(c),
{
    reveal(StyleAttr::applied);
}

proof fn lemma_last_wins_margin_top(a: StyleAttr, b: StyleAttr, c: ComputedStyle)
    requires
        a is MarginTop,
        b is MarginTop,
    ensures
        b.applied(a.applied(c)) == b.applied(c),
{
    reveal(StyleAttr::applied);
}

proof fn lemma_last_wins_margin_bottom(a: StyleAttr, b: StyleAttr, c: ComputedStyle)
    requires
        a is MarginBottom,
        b is MarginBottom,
    ensures
        b.applied(a.applied(c)) == b.applied(c),
{
    reveal(StyleAttr::applied);
}

proof fn lemma_last_wins_padding(a: StyleAttr, b: StyleAttr, c: ComputedStyle)
    requires
        a is Padding,
        b is Padding,
    ensures
        b.applied(a.applied(c)) == b.applied(c),
{
    reveal(StyleAttr::applied);
}

proof fn lemma_last_wins_padding_left(a: StyleAttr, b: StyleAttr, c: ComputedStyle)
    requires
        a is PaddingLeft,
        b is PaddingLeft,
    ensures
        b.applied(a.applied(c)) == b.applied(c),
{
    reveal(StyleAttr::applied);
}

proof fn lemma_last_wins_padding_right(a: StyleAttr, b: StyleAttr, c: ComputedStyle)
    requires
        a is PaddingRight,
        b is PaddingRight,
    ensures
        b.applied(a.applied(c)) == b.applied(c),
{
    reveal(StyleAttr::applied);
}

proof fn lemma_last_wins_padding_top(a: StyleAttr, b: StyleAttr, c: ComputedStyle)
    requires
        a is PaddingTop,
        b is PaddingTop,
    ensures
        b.applied(a.applied(c)) == b.applied(c),
{
    reveal(StyleAttr::applied);
}

proof fn lemma_last_wins_padding_bottom(a: StyleAttr, b: StyleAttr, c: ComputedStyle)
    requires
        a is PaddingBottom,
        b is PaddingBottom,
    ensures
        b.applied(a.applied(c)) == b.applied(c),
{
    reveal(StyleAttr::applied);
}

proof fn lemma_last_wins_border(a: StyleAttr, b: StyleAttr, c: ComputedStyle)
    requires
        a is Border,
        b is Border,
    ensures
        b.applied(a.applied(c)) == b.applied(c),
{
    reveal(StyleAttr::applied);
}

proof fn lemma_last_wins_border_left(a: StyleAttr, b: StyleAttr, c: ComputedStyle)
    requires
        a is BorderLeft,
        b is BorderLeft,
    ensures
        b.applied(a.applied(c)) == b.applied(c),
{
    reveal(StyleAttr::applied);
}

proof fn lemma_last_wins_border_right(a: StyleAttr, b: StyleAttr, c: ComputedStyle)
    requires
        a is BorderRight,
        b is BorderRight,
    ensures
        b.applied(a.applied(c)) == b.applied(c),
{
    reveal(StyleAttr::applied);
}

proof fn lemma_last_wins_border_top(a: StyleAttr, b: StyleAttr, c: ComputedStyle)
    requires
        a is BorderTop,
        b is BorderTop,
    ensures
        b.applied(a.applied(c)) == b.applied(c),
{
    reveal(StyleAttr::applied);
}

proof fn lemma_last_wins_border_bottom(a: StyleAttr, b: StyleAttr, c: ComputedStyle)
    requires
        a is BorderBottom,
        b is BorderBottom,
    ensures
        b.applied(a.applied(c)) == b.applied(c),
{
    reveal(StyleAttr::applied);
}

proof fn lemma_last_wins_flex_direction(a: StyleAttr, b: StyleAttr, c: ComputedStyle)
    requires
        a is FlexDirection,
        b is FlexDirection,
    ensures
        b.applied(a.applied(c)) == b.applied(c),
{
    reveal(StyleAttr::applied);
}

proof fn lemma_last_wins_flex_wrap(a: StyleAttr, b: StyleAttr, c: ComputedStyle)
    requires
        a is FlexWrap,
        b is FlexWrap,
    ensures
        b.applied(a.applied(c)) == b.applied(c),
{
    reveal(StyleAttr::applied);
}

proof fn lemma_last_wins_flex_grow(a: StyleAttr, b: StyleAttr, c: ComputedStyle)
    requires
        a is FlexGrow,
        b is FlexGrow,
    ensures
        b.applied(a.applied(c)) == b.applied(c),
{
    reveal(StyleAttr::applied);
}

proof fn lemma_last_wins_flex_shrink(a: StyleAttr, b: StyleAttr, c: ComputedStyle)
    requires
        a is FlexShrink,
        b is FlexShrink,
    ensures
        b.applied(a.applied(c)) == b.applied(c),
{
    reveal(StyleAttr::applied);
}

proof fn lemma_last_wins_flex_basis(a: StyleAttr, b: StyleAttr, c: ComputedStyle)
    requires
        a is FlexBasis,
        b is FlexBasis,
    ensures
        b.applied(a.applied(c)) == b.applied(c),
{
    reveal(StyleAttr::applied);
}

proof fn lemma_last_wins_row_gap(a: StyleAttr, b: StyleAttr, c: ComputedStyle)
    requires
        a is RowGap,
        b is RowGap,
    ensures
        b.applied(a.applied(c)) == b.applied(c),
{
    reveal(StyleAttr::applied);
}

proof fn lemma_last_wins_column_gap(a: StyleAttr, b: StyleAttr, c: ComputedStyle)
    requires
        a is ColumnGap,
        b is ColumnGap,
    ensures
        b.applied(a.applied(c)) == b.applied(c),
{
    reveal(StyleAttr::applied);
}

proof fn lemma_last_wins_gap(a: StyleAttr, b: StyleAttr, c: ComputedStyle)
    requires
        a is Gap,
        b is Gap,
    ensures
        b.applied(a.applied(c)) == b.applied(c),
{
    reveal(StyleAttr::applied);
    let x = a->Gap_0;
    let y = b->Gap_0;
    let d = a.applied(c);
    assert(d == ComputedStyle { style: Style { row_gap: x, column_gap: x, ..c.style }, ..c });
    assert(b.applied(d) == ComputedStyle { style: Style { row_gap: y, column_gap: y, ..d.style }, ..d });
    assert(b.applied(c) == ComputedStyle { style: Style { row_gap: y, column_gap: y, ..c.style }, ..c });
}

proof fn lemma_last_wins_grid_auto_flow(a: StyleAttr, b: StyleAttr, c: ComputedStyle)
    requires
        a is GridAutoFlow,
        b is GridAutoFlow,
    ensures
        b.applied(a.applied(c)) == b.applied(c),
{
    reveal(StyleAttr::applied);
}

proof fn lemma_last_wins_grid_row(a: StyleAttr, b: StyleAttr, c: ComputedStyle)
    requires
        a is GridRow,
        b is GridRow,
    ensures
        b.applied(a.applied(c)) == b.applied(c),
{
    reveal(StyleAttr::applied);
}

proof fn lemma_last_wins_grid_row_start(a: StyleAttr, b: StyleAttr, c: ComputedStyle)
    requires
        a is GridRowStart,
        b is GridRowStart,
    ensures
        b.applied(a.applied(c)) == b.applied(c),
{
    reveal(StyleAttr::applied);
}

proof fn lemma_last_wins_grid_row_span(a: StyleAttr, b: StyleAttr, c: ComputedStyle)
    requires
        a is GridRowSpan,
        b is GridRowSpan,
    ensures
        b.applied(a.applied(c)) == b.applied(c),
{
    reveal(StyleAttr::applied);
}

proof fn lemma_last_wins_grid_row_end(a: StyleAttr, b: StyleAttr, c: ComputedStyle)
    requires
        a is GridRowEnd,
        b is GridRowEnd,
    ensures
        b.applied(a.applied(c)) == b.applied(c),
{
    reveal(StyleAttr::applied);
}

proof fn lemma_last_wins_grid_column(a: StyleAttr, b: StyleAttr, c: ComputedStyle)
    requires
        a is GridColumn,
        b is GridColumn,
    ensures
        b.applied(a.applied(c)) == b.applied(c),
{
    reveal(StyleAttr::applied);
}

proof fn lemma_last_wins_grid_column_start(a: StyleAttr, b: StyleAttr, c: ComputedStyle)
    requires
        a is GridColumnStart,
        b is GridColumnStart,
    ensures
        b.applied(a.applied(c)) == b.applied(c),
{
    reveal(StyleAttr::applied);
}

proof fn lemma_last_wins_grid_column_span(a: StyleAttr, b: StyleAttr, c: ComputedStyle)
    requires
        a is GridColumnSpan,
        b is GridColumnSpan,
    ensures
        b.applied(a.applied(c)) == b.applied(c),
{
    reveal(StyleAttr::applied);
}

proof fn lemma_last_wins_grid_column_end(a: StyleAttr, b: StyleAttr, c: ComputedStyle)
    requires
        a is GridColumnEnd,
        b is GridColumnEnd,
    ensures
        b.applied(a.applied(c)) == b.applied(c),
{
    reveal(StyleAttr::applied);
}


proof fn lemma_hex_char(d: int)
    requires
        0 <= d < 16,
    ensures
        hex_value(hex_char(d)) == Some(d),
{
}

proof fn lemma_hex_byte(x: u8)
    ensures
        hex_pair(hex_char((x / 16) as int), hex_char((x % 16) as int)) == x,
{
    lemma_hex_char((x / 16) as int);
    lemma_hex_char((x % 16) as int);
    assert((x / 16) * 16 + x % 16 == x) by (nonlinear_arith);
}

/// A color written in `#rrggbbaa` notation reads back as its channels.
pub proof fn lemma_hex_text_round_trip(r: u8, g: u8, b: u8, a: u8)
    ensures
        hex_color(hex_text(r, g, b, a)) == Some((r, g, b, a)),
{
    let t = hex_text(r, g, b, a);
    let h = t.drop_first();
    lemma_hex_byte(r);
    lemma_hex_byte(g);
    lemma_hex_byte(b);
    lemma_hex_byte(a);
    lemma_hex_char((r / 16) as int);
    lemma_hex_char((r % 16) as int);
    lemma_hex_char((g / 16) as int);
    lemma_hex_char((g % 16) as int);
    lemma_hex_char((b / 16) as int);
    lemma_hex_char((b % 16) as int);
    lemma_hex_char((a / 16) as int);
    lemma_hex_char((a % 16) as int);
    assert(t[0] == '#');
    assert(h.len() == 8);
    assert(h =~= seq![
        hex_char((r / 16) as int), hex_char((r % 16) as int),
        hex_char((g / 16) as int), hex_char((g % 16) as int),
        hex_char((b / 16) as int), hex_char((b % 16) as int),
        hex_char((a / 16) as int), hex_char((a % 16) as int),
    ]);
}

/// A value whose text reads back as it without a regular expression: a
/// keyword, an integer, a float's text, no color, or hexadecimal channels.
pub open spec fn plain_value(x: AttrValue) -> bool {
    match x {
        AttrValue::Keyword(_) => true,
        AttrValue::Int(_) => true,
        AttrValue::Number(_) => true,
        AttrValue::Color(None) => true,
        AttrValue::Color(Some(ColorModel::Rgba8(_, _, _, _))) => true,
        _ => false,
    }
}

/// The text written for a plain value that was read reads back as the same
/// value.
pub proof fn lemma_value_round_trip(p: Prop, v: Seq<char>, x: AttrValue)
    requires
        value_parse(p, v) == Ok::<AttrValue, ValueError>(x),
        plain_value(x),
    ensures
        value_parse(p, value_text(x)) == Ok::<AttrValue, ValueError>(x),
{
    match x {
        AttrValue::Int(n) => {
            lemma_int_text_round_trip(n);
        },
        AttrValue::Color(Some(ColorModel::Rgba8(r, g, b, a))) => {
            lemma_hex_text_round_trip(r, g, b, a);
            reveal_strlit("transparent");
            assert(hex_text(r, g, b, a)[0] != "transparent"@[0]);
        },
        _ => {},
    }
}

/// An attribute that was read and holds a plain value, written back as its
/// property's name and its value's text, reads back as itself.
pub proof fn lemma_attr_round_trip(name: Seq<u8>, value: Seq<char>, x: (Prop, AttrValue), written: Seq<u8>)
    requires
        attr_parse(name, value) == Ok::<_, ValueError>(Some(x)),
        plain_value(x.1),
        byte_text(written) == x.0.spec_name(),
    ensures
        attr_parse(written, value_text(x.1)) == Ok::<_, ValueError>(Some(x)),
{
    lemma_prop_name_round_trip(x.0, written);
    lemma_value_round_trip(x.0, value, x.1);
}

/// An attribute that was read and holds a length, written back as its
/// property's name and the length's text, reads back as itself, wherever
/// `VAL_PATTERN` splits the written text into the length's number and the
/// suffix of its unit.
pub proof fn lemma_length_attr_round_trip(
    name: Seq<u8>,
    value: Seq<char>,
    x: (Prop, AttrValue),
    written: Seq<u8>,
    c: Seq<Option<Seq<char>>>,
)
    requires
        attr_parse(name, value) == Ok::<_, ValueError>(Some(x)),
        x.1 is Length,
        byte_text(written) == x.0.spec_name(),
        x.1->Length_0.0 != Unit::Auto ==> regex_captures(VAL_PATTERN@, val_text(x.1->Length_0)) == Some(c)
            && c[1] == Some(x.1->Length_0.1) && c[2] == Some(unit_suffix(x.1->Length_0.0)),
    ensures
        attr_parse(written, value_text(x.1)) == Ok::<_, ValueError>(Some(x)),
{
    lemma_prop_name_round_trip(x.0, written);
    let l = x.1->Length_0;
    assert(l.0 == Unit::Auto ==> l.1 == Seq::<char>::empty());
    lemma_val_text_round_trip(l, c);
    assert(val_parse(val_text(l)) == Some(l));
}

/// An attribute that was read and holds a color in a functional form,
/// written back as its property's name and the color's text, reads back as
/// itself, wherever the pattern of that form (and, for `hsla`, not the
/// `rgba` one) matches the written text with the color's four numbers as
/// its groups.
pub proof fn lemma_color_form_attr_round_trip(
    name: Seq<u8>,
    value: Seq<char>,
    x: (Prop, AttrValue),
    written: Seq<u8>,
    c: Seq<Option<Seq<char>>>,
)
    requires
        attr_parse(name, value) == Ok::<_, ValueError>(Some(x)),
        x.1 matches AttrValue::Color(Some(m)) && !(m is Rgba8),
        byte_text(written) == x.0.spec_name(),
        x.1 matches AttrValue::Color(Some(ColorModel::Rgba(r, g, b, a))) ==> regex_captures(
            RGBA_PATTERN@,
            value_text(x.1),
        ) == Some(c) && group(c, 1) == r && group(c, 2) == g && group(c, 3) == b && group(c, 4) == a,
        x.1 matches AttrValue::Color(Some(ColorModel::Hsla(h, s, l, a))) ==> regex_captures(
            RGBA_PATTERN@,
            value_text(x.1),
        ) is None && regex_captures(HSLA_PATTERN@, value_text(x.1)) == Some(c) && group(c, 1) == h
            && group(c, 2) == s && group(c, 3) == l && group(c, 4) == a,
    ensures
        attr_parse(written, value_text(x.1)) == Ok::<_, ValueError>(Some(x)),
{
    lemma_prop_name_round_trip(x.0, written);
    let t = value_text(x.1);
    reveal_strlit("transparent");
    assert(t.len() > 0);
    assert(t[0] == 'r' || t[0] == 'h');
    assert(t != "transparent"@) by {
        assert("transparent"@[0] == 't');
    }
    assert(hex_color(t) is None) by {
        assert(hex_value(t[0]) is None);
    }
}

/// An attribute whose value needs no pattern to read (a keyword, an
/// integer, a number, a color in hexadecimal notation, or transparent),
/// written as its property's name and its value's text, reads back as
/// itself, whatever value it was built with. A number must be the text of a
/// number.
pub proof fn lemma_written_attr_reads_back(a: StyleAttr, written: Seq<u8>)
    requires
        byte_text(written) == a@.0.spec_name(),
        plain_value(a@.1),
        a@.1 matches AttrValue::Number(t) ==> float_text(t),
    ensures
        attr_parse(written, value_text(a@.1)) == Ok::<_, ValueError>(Some(a@)),
{
    lemma_prop_name_round_trip(a@.0, written);
    match a {
        StyleAttr::BackgroundColor(x) => {
            reveal_strlit("transparent");
            if let Some(ColorSpec::Rgba8(r, g, b, a)) = x {
                lemma_hex_text_round_trip(r, g, b, a);
                assert(hex_text(r, g, b, a)[0] != "transparent"@[0]);
            }
        },
        StyleAttr::BorderColor(x) => {
            reveal_strlit("transparent");
            if let Some(ColorSpec::Rgba8(r, g, b, a)) = x {
                lemma_hex_text_round_trip(r, g, b, a);
                assert(hex_text(r, g, b, a)[0] != "transparent"@[0]);
            }
        },
        StyleAttr::ZIndex(x) => lemma_int_text_round_trip(x as int),
        StyleAttr::Display(x) => lemma_display_keyword_round_trip(x),
        StyleAttr::Position(x) => lemma_position_type_keyword_round_trip(x),
        StyleAttr::Overflow(x) => lemma_overflow_axis_keyword_round_trip(x),
        StyleAttr::OverflowX(x) => lemma_overflow_axis_keyword_round_trip(x),
        StyleAttr::OverflowY(x) => lemma_overflow_axis_keyword_round_trip(x),
        StyleAttr::Direction(x) => lemma_direction_keyword_round_trip(x),
        StyleAttr::Left(_) => {},
        StyleAttr::Right(_) => {},
        StyleAttr::Top(_) => {},
        StyleAttr::Bottom(_) => {},
        StyleAttr::Width(_) => {},
        StyleAttr::Height(_) => {},
        StyleAttr::MinWidth(_) => {},
        StyleAttr::MinHeight(_) => {},
        StyleAttr::MaxWidth(_) => {},
        StyleAttr::MaxHeight(_) => {},
        StyleAttr::AlignItems(x) => lemma_align_items_keyword_round_trip(x),
        StyleAttr::JustifyItems(x) => lemma_justify_items_keyword_round_trip(x),
        StyleAttr::AlignSelf(x) => lemma_align_self_keyword_round_trip(x),
        StyleAttr::JustifySelf(x) => lemma_justify_self_keyword_round_trip(x),
        StyleAttr::AlignContent(x) => lemma_align_content_keyword_round_trip(x),
        StyleAttr::JustifyContent(x) => lemma_justify_content_keyword_round_trip(x),
        StyleAttr::Margin(_) => {},
        StyleAttr::MarginLeft(_) => {},
        StyleAttr::MarginRight(_) => {},
        StyleAttr::MarginTop(_) => {},
        StyleAttr::MarginBottom(_) => {},
        StyleAttr::Padding(_) => {},
        StyleAttr::PaddingLeft(_) => {},
        StyleAttr::PaddingRight(_) => {},
        StyleAttr::PaddingTop(_) => {},
        StyleAttr::PaddingBottom(_) => {},
        StyleAttr::Border(_) => {},
        StyleAttr::BorderLeft(_) => {},
        StyleAttr::BorderRight(_) => {},
        StyleAttr::BorderTop(_) => {},
        StyleAttr::BorderBottom(_) => {},
        StyleAttr::FlexDirection(x) => lemma_flex_direction_keyword_round_trip(x),
        StyleAttr::FlexWrap(x) => lemma_flex_wrap_keyword_round_trip(x),
        StyleAttr::FlexGrow(_) => {},
        StyleAttr::FlexShrink(_) => {},
        StyleAttr::FlexBasis(_) => {},
        StyleAttr::RowGap(_) => {},
        StyleAttr::ColumnGap(_) => {},
        StyleAttr::Gap(_) => {},
        StyleAttr::GridAutoFlow(x) => lemma_grid_auto_flow_keyword_round_trip(x),
        StyleAttr::GridRow(_) => {},
        StyleAttr::GridRowStart(x) => lemma_int_text_round_trip(x as int),
        StyleAttr::GridRowSpan(x) => lemma_int_text_round_trip(x as int),
        StyleAttr::GridRowEnd(x) => lemma_int_text_round_trip(x as int),
        StyleAttr::GridColumn(_) => {},
        StyleAttr::GridColumnStart(x) => lemma_int_text_round_trip(x as int),
        StyleAttr::GridColumnSpan(x) => lemma_int_text_round_trip(x as int),
        StyleAttr::GridColumnEnd(x) => lemma_int_text_round_trip(x as int),
    }
}

/// Applying an attribute twice gives what applying it once gives.
pub proof fn lemma_apply_idempotent(a: StyleAttr, c: ComputedStyle)
    ensures
        a.applied(a.applied(c)) == a.applied(c),
{
    lemma_apply_last_wins(a, a, c);
}

/// Of two attributes that set the same property, the later one decides.
pub proof fn lemma_apply_last_wins(a: StyleAttr, b: StyleAttr, c: ComputedStyle)
    requires
        a@.0 == b@.0,
    ensures
        b.applied(a.applied(c)) == b.applied(c),
{
    lemma_same_prop_same_variant(a, b);
    match a {
        StyleAttr::BackgroundColor(_) => lemma_last_wins_background_color(a, b, c),
        StyleAttr::BorderColor(_) => lemma_last_wins_border_color(a, b, c),
        StyleAttr::ZIndex(_) => lemma_last_wins_z_index(a, b, c),
        StyleAttr::Display(_) => lemma_last_wins_display(a, b, c),
        StyleAttr::Position(_) => lemma_last_wins_position(a, b, c),
        StyleAttr::Overflow(_) => lemma_last_wins_overflow(a, b, c),
        StyleAttr::OverflowX(_) => lemma_last_wins_overflow_x(a, b, c),
        StyleAttr::OverflowY(_) => lemma_last_wins_overflow_y(a, b, c),
        StyleAttr::Direction(_) => lemma_last_wins_direction(a, b, c),
        StyleAttr::Left(_) => lemma_last_wins_left(a, b, c),
        StyleAttr::Right(_) => lemma_last_wins_right(a, b, c),
        StyleAttr::Top(_) => lemma_last_wins_top(a, b, c),
        StyleAttr::Bottom(_) => lemma_last_wins_bottom(a, b, c),
        StyleAttr::Width(_) => lemma_last_wins_width(a, b, c),
        StyleAttr::Height(_) => lemma_last_wins_height(a, b, c),
        StyleAttr::MinWidth(_) => lemma_last_wins_min_width(a, b, c),
        StyleAttr::MinHeight(_) => lemma_last_wins_min_height(a, b, c),
        StyleAttr::MaxWidth(_) => lemma_last_wins_max_width(a, b, c),
        StyleAttr::MaxHeight(_) => lemma_last_wins_max_height(a, b, c),
        StyleAttr::AlignItems(_) => lemma_last_wins_align_items(a, b, c),
        StyleAttr::JustifyItems(_) => lemma_last_wins_justify_items(a, b, c),
        StyleAttr::AlignSelf(_) => lemma_last_wins_align_self(a, b, c),
        StyleAttr::JustifySelf(_) => lemma_last_wins_justify_self(a, b, c),
        StyleAttr::AlignContent(_) => lemma_last_wins_align_content(a, b, c),
        StyleAttr::JustifyContent(_) => lemma_last_wins_justify_content(a, b, c),
        StyleAttr::Margin(_) => lemma_last_wins_margin(a, b, c),
        StyleAttr::MarginLeft(_) => lemma_last_wins_margin_left(a, b, c),
        StyleAttr::MarginRight(_) => lemma_last_wins_margin_right(a, b, c),
        StyleAttr::MarginTop(_) => lemma_last_wins_margin_top(a, b, c),
        StyleAttr::MarginBottom(_) => lemma_last_wins_margin_bottom(a, b, c),
        StyleAttr::Padding(_) => lemma_last_wins_padding(a, b, c),
        StyleAttr::PaddingLeft(_) => lemma_last_wins_padding_left(a, b, c),
        StyleAttr::PaddingRight(_) => lemma_last_wins_padding_right(a, b, c),
        StyleAttr::PaddingTop(_) => lemma_last_wins_padding_top(a, b, c),
        StyleAttr::PaddingBottom(_) => lemma_last_wins_padding_bottom(a, b, c),
        StyleAttr::Border(_) => lemma_last_wins_border(a, b, c),
        StyleAttr::BorderLeft(_) => lemma_last_wins_border_left(a, b, c),
        StyleAttr::BorderRight(_) => lemma_last_wins_border_right(a, b, c),
        StyleAttr::BorderTop(_) => lemma_last_wins_border_top(a, b, c),
        StyleAttr::BorderBottom(_) => lemma_last_wins_border_bottom(a, b, c),
        StyleAttr::FlexDirection(_) => lemma_last_wins_flex_direction(a, b, c),
        StyleAttr::FlexWrap(_) => lemma_last_wins_flex_wrap(a, b, c),
        StyleAttr::FlexGrow(_) => lemma_last_wins_flex_grow(a, b, c),
        StyleAttr::FlexShrink(_) => lemma_last_wins_flex_shrink(a, b, c),
        StyleAttr::FlexBasis(_) => lemma_last_wins_flex_basis(a, b, c),
        StyleAttr::RowGap(_) => lemma_last_wins_row_gap(a, b, c),
        StyleAttr::ColumnGap(_) => lemma_last_wins_column_gap(a, b, c),
        StyleAttr::Gap(_) => lemma_last_wins_gap(a, b, c),
        StyleAttr::GridAutoFlow(_) => lemma_last_wins_grid_auto_flow(a, b, c),
        StyleAttr::GridRow(_) => lemma_last_wins_grid_row(a, b, c),
        StyleAttr::GridRowStart(_) => lemma_last_wins_grid_row_start(a, b, c),
        StyleAttr::GridRowSpan(_) => lemma_last_wins_grid_row_span(a, b, c),
        StyleAttr::GridRowEnd(_) => lemma_last_wins_grid_row_end(a, b, c),
        StyleAttr::GridColumn(_) => lemma_last_wins_grid_column(a, b, c),
        StyleAttr::GridColumnStart(_) => lemma_last_wins_grid_column_start(a, b, c),
        StyleAttr::GridColumnSpan(_) => lemma_last_wins_grid_column_span(a, b, c),
        StyleAttr::GridColumnEnd(_) => lemma_last_wins_grid_column_end(a, b, c),
    }
}


/// Setting the left side of the margin sets that side only: the other
/// sides and the rest of the style stay as they were.
pub proof fn lemma_margin_left_sets_its_side(x: Val, c: ComputedStyle)
    ensures
        ({
            let r = StyleAttr::MarginLeft(x).applied(c);
        &&& r.style.margin.left == x
        &&& r.style.margin.right == c.style.margin.right
        &&& r.style.margin.top == c.style.margin.top
        &&& r.style.margin.bottom == c.style.margin.bottom
        &&& r == (ComputedStyle { style: Style { margin: r.style.margin, ..c.style }, ..c })
        }),
{
    reveal(StyleAttr::applied);
}

/// Setting the right side of the margin sets that side only: the other
/// sides and the rest of the style stay as they were.
pub proof fn lemma_margin_right_sets_its_side(x: Val, c: ComputedStyle)
    ensures
        ({
            let r = StyleAttr::MarginRight(x).applied(c);
        &&& r.style.margin.right == x
        &&& r.style.margin.left == c.style.margin.left
        &&& r.style.margin.top == c.style.margin.top
        &&& r.style.margin.bottom == c.style.margin.bottom
        &&& r == (ComputedStyle { style: Style { margin: r.style.margin, ..c.style }, ..c })
        }),
{
    reveal(StyleAttr::applied);
}

/// Setting the top side of the margin sets that side only: the other
/// sides and the rest of the style stay as they were.
pub proof fn lemma_margin_top_sets_its_side(x: Val, c: ComputedStyle)
    ensures
        ({
            let r = StyleAttr::MarginTop(x).applied(c);
        &&& r.style.margin.top == x
        &&& r.style.margin.left == c.style.margin.left
        &&& r.style.margin.right == c.style.margin.right
        &&& r.style.margin.bottom == c.style.margin.bottom
        &&& r == (ComputedStyle { style: Style { margin: r.style.margin, ..c.style }, ..c })
        }),
{
    reveal(StyleAttr::applied);
}

/// Setting the bottom side of the margin sets that side only: the other
/// sides and the rest of the style stay as they were.
pub proof fn lemma_margin_bottom_sets_its_side(x: Val, c: ComputedStyle)
    ensures
        ({
            let r = StyleAttr::MarginBottom(x).applied(c);
        &&& r.style.margin.bottom == x
        &&& r.style.margin.left == c.style.margin.left
        &&& r.style.margin.right == c.style.margin.right
        &&& r.style.margin.top == c.style.margin.top
        &&& r == (ComputedStyle { style: Style { margin: r.style.margin, ..c.style }, ..c })
        }),
{
    reveal(StyleAttr::applied);
}

/// Setting the whole margin sets all four sides and nothing else.
pub proof fn lemma_margin_sets_all_sides(x: UiRect, c: ComputedStyle)
    ensures
        ({
            let r = StyleAttr::Margin(x).applied(c);
            &&& r.style.margin == x
            &&& r == (ComputedStyle { style: Style { margin: x, ..c.style }, ..c })
        }),
{
    reveal(StyleAttr::applied);
}

/// Setting the left side of the padding sets that side only: the other
/// sides and the rest of the style stay as they were.
pub proof fn lemma_padding_left_sets_its_side(x: Val, c: ComputedStyle)
    ensures
        ({
            let r = StyleAttr::PaddingLeft(x).applied(c);
        &&& r.style.padding.left == x
        &&& r.style.padding.right == c.style.padding.right
        &&& r.style.padding.top == c.style.padding.top
        &&& r.style.padding.bottom == c.style.padding.bottom
        &&& r == (ComputedStyle { style: Style { padding: r.style.padding, ..c.style }, ..c })
        }),
{
    reveal(StyleAttr::applied);
}

/// Setting the right side of the padding sets that side only: the other
/// sides and the rest of the style stay as they were.
pub proof fn lemma_padding_right_sets_its_side(x: Val, c: ComputedStyle)
    ensures
        ({
            let r = StyleAttr::PaddingRight(x).applied(c);
        &&& r.style.padding.right == x
        &&& r.style.padding.left == c.style.padding.left
        &&& r.style.padding.top == c.style.padding.top
        &&& r.style.padding.bottom == c.style.padding.bottom
        &&& r == (ComputedStyle { style: Style { padding: r.style.padding, ..c.style }, ..c })
        }),
{
    reveal(StyleAttr::applied);
}

/// Setting the top side of the padding sets that side only: the other
/// sides and the rest of the style stay as they were.
pub proof fn lemma_padding_top_sets_its_side(x: Val, c: ComputedStyle)
    ensures
        ({
            let r = StyleAttr::PaddingTop(x).applied(c);
        &&& r.style.padding.top == x
        &&& r.style.padding.left == c.style.padding.left
        &&& r.style.padding.right == c.style.padding.right
        &&& r.style.padding.bottom == c.style.padding.bottom
        &&& r == (ComputedStyle { style: Style { padding: r.style.padding, ..c.style }, ..c })
        }),
{
    reveal(StyleAttr::applied);
}

/// Setting the bottom side of the padding sets that side only: the other
/// sides and the rest of the style stay as they were.
pub proof fn lemma_padding_bottom_sets_its_side(x: Val, c: ComputedStyle)
    ensures
        ({
            let r = StyleAttr::PaddingBottom(x).applied(c);
        &&& r.style.padding.bottom == x
        &&& r.style.padding.left == c.style.padding.left
        &&& r.style.padding.right == c.style.padding.right
        &&& r.style.padding.top == c.style.padding.top
        &&& r == (ComputedStyle { style: Style { padding: r.style.padding, ..c.style }, ..c })
        }),
{
    reveal(StyleAttr::applied);
}

/// Setting the whole padding sets all four sides and nothing else.
pub proof fn lemma_padding_sets_all_sides(x: UiRect, c: ComputedStyle)
    ensures
        ({
            let r = StyleAttr::Padding(x).applied(c);
            &&& r.style.padding == x
            &&& r == (ComputedStyle { style: Style { padding: x, ..c.style }, ..c })
        }),
{
    reveal(StyleAttr::applied);
}

/// Setting the left side of the border sets that side only: the other
/// sides and the rest of the style stay as they were.
pub proof fn lemma_border_left_sets_its_side(x: Val, c: ComputedStyle)
    ensures
        ({
            let r = StyleAttr::BorderLeft(x).applied(c);
        &&& r.style.border.left == x
        &&& r.style.border.right == c.style.border.right
        &&& r.style.border.top == c.style.border.top
        &&& r.style.border.bottom == c.style.border.bottom
        &&& r == (ComputedStyle { style: Style { border: r.style.border, ..c.style }, ..c })
        }),
{
    reveal(StyleAttr::applied);
}

/// Setting the right side of the border sets that side only: the other
/// sides and the rest of the style stay as they were.
pub proof fn lemma_border_right_sets_its_side(x: Val, c: ComputedStyle)
    ensures
        ({
            let r = StyleAttr::BorderRight(x).applied(c);
        &&& r.style.border.right == x
        &&& r.style.border.left == c.style.border.left
        &&& r.style.border.top == c.style.border.top
        &&& r.style.border.bottom == c.style.border.bottom
        &&& r == (ComputedStyle { style: Style { border: r.style.border, ..c.style }, ..c })
        }),
{
    reveal(StyleAttr::applied);
}

/// Setting the top side of the border sets that side only: the other
/// sides and the rest of the style stay as they were.
pub proof fn lemma_border_top_sets_its_side(x: Val, c: ComputedStyle)
    ensures
        ({
            let r = StyleAttr::BorderTop(x).applied(c);
        &&& r.style.border.top == x
        &&& r.style.border.left == c.style.border.left
        &&& r.style.border.right == c.style.border.right
        &&& r.style.border.bottom == c.style.border.bottom
        &&& r == (ComputedStyle { style: Style { border: r.style.border, ..c.style }, ..c })
        }),
{
    reveal(StyleAttr::applied);
}

/// Setting the bottom side of the border sets that side only: the other
/// sides and the rest of the style stay as they were.
pub proof fn lemma_border_bottom_sets_its_side(x: Val, c: ComputedStyle)
    ensures
        ({
            let r = StyleAttr::BorderBottom(x).applied(c);
        &&& r.style.border.bottom == x
        &&& r.style.border.left == c.style.border.left
        &&& r.style.border.right == c.style.border.right
        &&& r.style.border.top == c.style.border.top
        &&& r == (ComputedStyle { style: Style { border: r.style.border, ..c.style }, ..c })
        }),
{
    reveal(StyleAttr::applied);
}

/// Setting the whole border sets all four sides and nothing else.
pub proof fn lemma_border_sets_all_sides(x: UiRect, c: ComputedStyle)
    ensures
        ({
            let r = StyleAttr::Border(x).applied(c);
            &&& r.style.border == x
            &&& r == (ComputedStyle { style: Style { border: x, ..c.style }, ..c })
        }),
{
    reveal(StyleAttr::applied);
}

} // verus!
