//! What the commands print, as styled lines: every JSON value is shown by
//! one rule (object members as `Key: value`, arrays and objects recursing,
//! scalars on a line of their own), and plain messages carry a palette color.

use vstd::prelude::*;

use crate::json::JsonValue;
use crate::text::{chars_of, str_eq};

verus! {

/// The palette a message can be printed in; `Plain` leaves the terminal's
/// own color.
#[derive(Debug, Clone, Copy, PartialEq, Eq)]
pub enum Color {
    Red,
    Green,
    Yellow,
    Blue,
    Magenta,
    Cyan,
    Gray,
    Plain,
}

/// One printed line: a `Key: value` pair (key in cyan, value in yellow), or
/// a text in one color.
#[derive(Debug, PartialEq, Eq)]
pub enum Styled {
    Field { key: String, value: String },
    Text { text: String, color: Color },
}

/// The content of a printed line.
pub enum StyledView {
    Field(Seq<char>, Seq<char>),
    Text(Seq<char>, Color),
}

impl View for Styled {
    type V = StyledView;

    open spec fn view(&self) -> StyledView {
        match self {
            Styled::Field { key, value } => StyledView::Field(key@, value@),
            Styled::Text { text, color } => StyledView::Text(text@, *color),
        }
    }
}

/// The contents of a list of printed lines.
pub open spec fn styled_view(v: Seq<Styled>) -> Seq<StyledView> {
    v.map_values(|s: Styled| s@)
}

/// The color a palette name stands for; unknown names print uncolored.
pub open spec fn palette_spec(name: Seq<char>) -> Color {
    if name == seq!['r', 'e', 'd'] {
        Color::Red
    } else if name == seq!['g', 'r', 'e', 'e', 'n'] {
        Color::Green
    } else if name == seq!['y', 'e', 'l', 'l', 'o', 'w'] {
        Color::Yellow
    } else if name == seq!['b', 'l', 'u', 'e'] {
        Color::Blue
    } else if name == seq!['m', 'a', 'g', 'e', 'n', 't', 'a'] {
        Color::Magenta
    } else if name == seq!['c', 'y', 'a', 'n'] {
        Color::Cyan
    } else if name == seq!['g', 'r', 'a', 'y'] {
        Color::Gray
    } else {
        Color::Plain
    }
}

/// The palette color named `name` (`red`, `green`, `yellow`, `blue`,
/// `magenta`, `cyan`, `gray`); any other name prints uncolored.
pub fn palette(name: &str) -> (c: Color)
    ensures
        c == palette_spec(name@),
        (c == Color::Red) <==> name@ == seq!['r', 'e', 'd'],
        (c == Color::Green) <==> name@ == seq!['g', 'r', 'e', 'e', 'n'],
        (c == Color::Yellow) <==> name@ == seq!['y', 'e', 'l', 'l', 'o', 'w'],
        (c == Color::Blue) <==> name@ == seq!['b', 'l', 'u', 'e'],
        (c == Color::Magenta) <==> name@ == seq!['m', 'a', 'g', 'e', 'n', 't', 'a'],
        (c == Color::Cyan) <==> name@ == seq!['c', 'y', 'a', 'n'],
        (c == Color::Gray) <==> name@ == seq!['g', 'r', 'a', 'y'],
{
    proof {
        law_each_name_its_own_color(name@);
    }
    proof {
        reveal_strlit("red");
        reveal_strlit("green");
        reveal_strlit("yellow");
        reveal_strlit("blue");
        reveal_strlit("magenta");
        reveal_strlit("cyan");
        reveal_strlit("gray");
        assert("red"@ =~= seq!['r', 'e', 'd']);
        assert("green"@ =~= seq!['g', 'r', 'e', 'e', 'n']);
        assert("yellow"@ =~= seq!['y', 'e', 'l', 'l', 'o', 'w']);
        assert("blue"@ =~= seq!['b', 'l', 'u', 'e']);
        assert("magenta"@ =~= seq!['m', 'a', 'g', 'e', 'n', 't', 'a']);
        assert("cyan"@ =~= seq!['c', 'y', 'a', 'n']);
        assert("gray"@ =~= seq!['g', 'r', 'a', 'y']);
    }
    if str_eq(name, "red") {
        Color::Red
    } else if str_eq(name, "green") {
        Color::Green
    } else if str_eq(name, "yellow") {
        Color::Yellow
    } else if str_eq(name, "blue") {
        Color::Blue
    } else if str_eq(name, "magenta") {
        Color::Magenta
    } else if str_eq(name, "cyan") {
        Color::Cyan
    } else if str_eq(name, "gray") {
        Color::Gray
    } else {
        Color::Plain
    }
}

/// Law: each palette name gives its own color, and a color is only given
/// by its own name; every other name prints uncolored.
pub proof fn law_each_name_its_own_color(name: Seq<char>)
    ensures
        (palette_spec(name) == Color::Red) <==> name == seq!['r', 'e', 'd'],
        (palette_spec(name) == Color::Green) <==> name == seq!['g', 'r', 'e', 'e', 'n'],
        (palette_spec(name) == Color::Yellow) <==> name == seq!['y', 'e', 'l', 'l', 'o', 'w'],
        (palette_spec(name) == Color::Blue) <==> name == seq!['b', 'l', 'u', 'e'],
        (palette_spec(name) == Color::Magenta) <==> name == seq!['m', 'a', 'g', 'e', 'n', 't', 'a'],
        (palette_spec(name) == Color::Cyan) <==> name == seq!['c', 'y', 'a', 'n'],
        (palette_spec(name) == Color::Gray) <==> name == seq!['g', 'r', 'a', 'y'],
{
}

/// A plain line of `text` in the palette color named `color`.
pub fn line(text: &str, color: &str) -> (l: Styled)
    ensures
        l@ == StyledView::Text(text@, palette_spec(color@)),
{
    Styled::Text { text: text.to_owned(), color: palette(color) }
}

/// The characters that `char::to_uppercase` yields for `c`.
pub uninterp spec fn unicode_upper(c: char) -> Seq<char>;

/// Upper-cases one character.
///
/// Calls `char::to_uppercase` and collects what it yields; the contract only
/// names that result (`unicode_upper`), since the Unicode case tables are
/// not restated here.
#[verifier::external_body]
fn char_to_uppercase(c: char) -> (r: String)
    ensures
        r@ == unicode_upper(c),
{
    c.to_uppercase().collect::<String>()
}

/// `s` with its first character upper-cased.
pub open spec fn ucfirst_spec(s: Seq<char>) -> Seq<char> {
    if s.len() == 0 {
        Seq::<char>::empty()
    } else {
        unicode_upper(s[0]) + s.drop_first()
    }
}

/// Puts `first_upper`, the upper-cased first character of `s`, in front of
/// the rest of `s`.
pub fn capitalize_with(first_upper: &str, s: &str) -> (r: String)
    requires
        s@.len() > 0,
    ensures
        r@ == first_upper@ + s@.drop_first(),
{
    let v = chars_of(s);
    let mut r = first_upper.to_owned();
    let rest = crate::text::string_from_chars(&v, 1, v.len());
    r.append(rest.as_str());
    r
}

/// Upper-cases the first character of `s`; the empty string stays empty.
pub fn ucfirst(s: &str) -> (r: String)
    ensures
        r@ == ucfirst_spec(s@),
{
    let v = chars_of(s);
    if v.len() == 0 {
        String::new()
    } else {
        let up = char_to_uppercase(v[0]);
        capitalize_with(up.as_str(), s)
    }
}

/// The text a scalar is shown as: a string as is, `null` as nothing, and
/// everything else in its JSON spelling.
pub open spec fn scalar_text(v: JsonValue) -> Seq<char> {
    match v {
        JsonValue::Str(s) => s@,
        JsonValue::Null => Seq::<char>::empty(),
        JsonValue::Bool(b) => if b {
            seq!['t', 'r', 'u', 'e']
        } else {
            seq!['f', 'a', 'l', 's', 'e']
        },
        JsonValue::Number(n) => n@,
        _ => Seq::<char>::empty(),
    }
}

/// Whether a value is an array or an object.
pub open spec fn is_container(v: JsonValue) -> bool {
    v is Array || v is Object
}

/// The lines that show `v`: members of objects as `Key: value` (containers
/// recursing), the items of arrays in turn, and a scalar as one line in
/// `color`.
pub open spec fn render_spec(v: JsonValue, color: Color) -> Seq<StyledView>
    decreases v, 0nat,
{
    match v {
        JsonValue::Object(entries) => render_entries(entries@, color),
        JsonValue::Array(items) => render_items(items@, color),
        _ => seq![StyledView::Text(scalar_text(v), color)],
    }
}

/// The lines that show the items of an array.
pub open spec fn render_items(items: Seq<JsonValue>, color: Color) -> Seq<StyledView>
    decreases items, items.len(),
{
    if items.len() == 0 {
        Seq::<StyledView>::empty()
    } else {
        render_items(items.drop_last(), color) + render_spec(items.last(), color)
    }
}

/// The lines that show the members of an object.
pub open spec fn render_entries(entries: Seq<(String, JsonValue)>, color: Color) -> Seq<StyledView>
    decreases entries, entries.len(),
{
    if entries.len() == 0 {
        Seq::<StyledView>::empty()
    } else {
        let (key, val) = entries.last();
        render_entries(entries.drop_last(), color) + if is_container(val) {
            render_spec(val, color)
        } else {
            seq![StyledView::Field(ucfirst_spec(key@), scalar_text(val))]
        }
    }
}

/// Law: an array shows as its items shown one after the other, each by the
/// same rule as a value on its own: a single item shows exactly as that
/// item, and the lines of two runs of items are the lines of each in turn.
pub proof fn law_array_items_render_like_values(a: Seq<JsonValue>, b: Seq<JsonValue>, x: JsonValue, color: Color)
    ensures
        render_items(seq![x], color) == render_spec(x, color),
        render_items(a + b, color) == render_items(a, color) + render_items(b, color),
    decreases b.len(),
{
    assert(seq![x].drop_last() =~= Seq::<JsonValue>::empty());
    assert(render_items(Seq::<JsonValue>::empty(), color) + render_spec(x, color) =~= render_spec(x, color));
    if b.len() == 0 {
        assert(a + b =~= a);
        assert(render_items(a, color) + render_items(b, color) =~= render_items(a, color));
    } else {
        law_array_items_render_like_values(a, b.drop_last(), x, color);
        assert((a + b).drop_last() =~= a + b.drop_last());
        assert((a + b).last() == b.last());
    }
}

/// The text a scalar is shown as.
pub fn scalar_to_string(value: &JsonValue) -> (s: String)
    ensures
        s@ == scalar_text(*value),
{
    match value {
        JsonValue::Str(s) => s.clone(),
        JsonValue::Null => String::new(),
        JsonValue::Bool(b) => {
            proof {
                reveal_strlit("true");
                reveal_strlit("false");
                assert("true"@ =~= seq!['t', 'r', 'u', 'e']);
                assert("false"@ =~= seq!['f', 'a', 'l', 's', 'e']);
            }
            if *b {
                "true".to_owned()
            } else {
                "false".to_owned()
            }
        },
        JsonValue::Number(n) => n.clone(),
        _ => String::new(),
    }
}

/// Whether a value is an array or an object.
fn container(value: &JsonValue) -> (b: bool)
    ensures
        b == is_container(*value),
{
    match value {
        JsonValue::Array(_) | JsonValue::Object(_) => true,
        _ => false,
    }
}

/// Appends the lines that show `value` to `out`.
fn print_inner(value: &JsonValue, color: Color, out: &mut Vec<Styled>)
    ensures
        styled_view(final(out)@) == styled_view(old(out)@) + render_spec(*value, color),
    decreases value,
{
    let ghost start = styled_view(out@);
    match value {
        JsonValue::Object(entries) => {
            let mut i: usize = 0;
            while i < entries.len()
                invariant
                    0 <= i <= entries@.len(),
                    *value == JsonValue::Object(*entries),
                    styled_view(out@) == start + render_entries(entries@.take(i as int), color),
                decreases entries.len() - i,
            {
                let ghost before = styled_view(out@);
                assert(entries@.take(i + 1).drop_last() == entries@.take(i as int));
                assert(entries@.take(i + 1).last() == entries@[i as int]);
                let key = &entries[i].0;
                let val = &entries[i].1;
                if container(val) {
                    proof {
                        assert(decreases_to!(*value => value->Object_0));
                        assert(decreases_to!(*entries => entries@));
                        assert(decreases_to!(entries@ => entries@[i as int]));
                        assert(decreases_to!(entries@[i as int] => entries@[i as int].1));
                        assert(decreases_to!(*value => entries@[i as int].1));
                    }
                    print_inner(val, color, out);
                } else {
                    let line = Styled::Field { key: ucfirst(key.as_str()), value: scalar_to_string(val) };
                    out.push(line);
                    assert(styled_view(out@) =~= before + seq![line@]);
                }
                i = i + 1;
            }
            assert(entries@.take(entries@.len() as int) == entries@);
        },
        JsonValue::Array(items) => {
            let mut i: usize = 0;
            while i < items.len()
                invariant
                    0 <= i <= items@.len(),
                    *value == JsonValue::Array(*items),
                    styled_view(out@) == start + render_items(items@.take(i as int), color),
                decreases items.len() - i,
            {
                assert(items@.take(i + 1).drop_last() == items@.take(i as int));
                assert(items@.take(i + 1).last() == items@[i as int]);
                proof {
                    assert(decreases_to!(*value => value->Array_0));
                    assert(decreases_to!(*items => items@));
                    assert(decreases_to!(items@ => items@[i as int]));
                    assert(decreases_to!(*value => items@[i as int]));
                }
                print_inner(&items[i], color, out);
                i = i + 1;
            }
            assert(items@.take(items@.len() as int) == items@);
        },
        _ => {
            let line = Styled::Text { text: scalar_to_string(value), color };
            out.push(line);
            assert(styled_view(out@) =~= start + seq![line@]);
        },
    }
}

/// The lines that show a JSON value, scalars uncolored.
pub fn print_value(value: &JsonValue) -> (lines: Vec<Styled>)
    ensures
        styled_view(lines@) == render_spec(*value, Color::Plain),
{
    let mut out: Vec<Styled> = Vec::new();
    print_inner(value, Color::Plain, &mut out);
    assert(styled_view(Seq::<Styled>::empty()) + render_spec(*value, Color::Plain)
        == render_spec(*value, Color::Plain));
    out
}

} // verus!
