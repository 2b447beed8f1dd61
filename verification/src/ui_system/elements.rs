use vstd::prelude::*;
use crate::fixed::{difference_of, fx_add, fx_mul, fx_sub, product_of, sum_of, ONE};
use crate::shapes::{Color, Rectangle, Vector2};
use crate::ui_system::{
    center_left, centered_left, pattern_match, regex_match, Button, Mouse, ScreenElements, Text,
    TextField,
};
use crate::utils::{SCREEN_HEIGHT, SCREEN_WIDTH};

verus! {

/// The size of the font of a button.
pub const BUTTON_FONT: i32 = 20;

/// The key that takes the last character off a text, as one byte.
pub const KEY_ERASE: u8 = 3;

/// The pattern of an address of four numbers with dots between them.
pub const IPV4_PATTERN: &'static str = "([0-9]{1,3})+([.]+[0-9]{1,3}){3}";

impl Text {
    /// A text whose middle stands at `relative_pos`, for a text that is
    /// `width` pixels wide in its font.
    pub fn new(text: &str, relative_pos: Vector2, color: Color, size: i32, width: i32) -> (made:
        Text)
        ensures
            made.text@ == text@,
            made.relative_pos == relative_pos,
            made.color == color,
            made.size == size,
            made.pos == (Vector2 {
                x: centered_left(relative_pos.x, width),
                y: product_of(SCREEN_HEIGHT, relative_pos.y),
            }),
    {
        Text {
            pos: Vector2 {
                x: center_left(relative_pos.x, width),
                y: fx_mul(SCREEN_HEIGHT, relative_pos.y),
            },
            relative_pos,
            text: text.to_owned(),
            color,
            size,
        }
    }

    /// Puts the text back round its middle, for a text that is now `width`
    /// pixels wide.
    pub fn centralize(&mut self, width: i32)
        ensures
            *final(self) == (Text {
                pos: Vector2 {
                    x: centered_left(old(self).relative_pos.x, width),
                    y: old(self).pos.y,
                },
                ..*old(self)
            }),
    {
        self.pos.x = center_left(self.relative_pos.x, width);
    }
}

impl ScreenElements {
    pub open spec fn default_color_spec() -> Color {
        Color { r: 150, g: 150, b: 150, a: 255 }
    }

    /// The colour of an enabled button.
    #[verifier::when_used_as_spec(default_color_spec)]
    pub fn default_color() -> (color: Color)
        ensures
            color == ScreenElements::default_color_spec(),
    {
        Color { r: 150, g: 150, b: 150, a: 255 }
    }

    pub open spec fn focused_color_spec() -> Color {
        Color { r: 255, g: 255, b: 255, a: 255 }
    }

    /// The colour of a button with the mouse on it.
    #[verifier::when_used_as_spec(focused_color_spec)]
    pub fn focused_color() -> (color: Color)
        ensures
            color == ScreenElements::focused_color_spec(),
    {
        Color { r: 255, g: 255, b: 255, a: 255 }
    }

    pub open spec fn disabled_color_spec() -> Color {
        Color { r: 50, g: 50, b: 50, a: 255 }
    }

    /// The colour of a disabled button.
    #[verifier::when_used_as_spec(disabled_color_spec)]
    pub fn disabled_color() -> (color: Color)
        ensures
            color == ScreenElements::disabled_color_spec(),
    {
        Color { r: 50, g: 50, b: 50, a: 255 }
    }
}

impl Button {
    /// A button whose middle stands at `relative_pos`, for a text that is
    /// `width` pixels wide in the font of a button. Its rectangle is 30
    /// pixels wider than the text and 40 pixels high, and begins 10 pixels
    /// above the text.
    pub fn new(enabled: bool, text: &str, relative_pos: Vector2, width: i32) -> (made: Button)
        ensures
            made.enabled == enabled,
            made.text@ == text@,
            made.pos == (Vector2 {
                x: centered_left(relative_pos.x, width),
                y: product_of(SCREEN_HEIGHT, relative_pos.y),
            }),
            made.rect == (Rectangle {
                x: difference_of(
                    product_of(SCREEN_WIDTH, relative_pos.x),
                    ((width + 30) * (ONE / 2)) as i64,
                ),
                y: difference_of(product_of(SCREEN_HEIGHT, relative_pos.y), (10 * ONE) as i64),
                width: ((width + 30) * ONE) as i64,
                height: (40 * ONE) as i64,
            }),
    {
        let wide: i64 = width as i64 + 30;
        Button {
            text: text.to_owned(),
            pos: Vector2 {
                x: center_left(relative_pos.x, width),
                y: fx_mul(SCREEN_HEIGHT, relative_pos.y),
            },
            rect: Rectangle::new(
                fx_sub(fx_mul(SCREEN_WIDTH, relative_pos.x), wide * (ONE / 2)),
                fx_sub(fx_mul(SCREEN_HEIGHT, relative_pos.y), 10 * ONE),
                wide * ONE,
                40 * ONE,
            ),
            enabled,
        }
    }

    /// Whether the mouse is on the button, which it never is on a
    /// disabled one.
    pub open spec fn focused_at(self, position: Vector2) -> bool {
        self.enabled && self.rect.holds_point(position)
    }

    pub fn is_focused(&self, position: Vector2) -> (focused: bool)
        ensures
            focused == self.focused_at(position),
    {
        if !self.enabled {
            return false;
        }
        self.rect.check_collision_point_rec(position)
    }

    /// Whether the button is pressed: the mouse is on it and was clicked.
    pub open spec fn pressed_by(self, mouse: Mouse) -> bool {
        self.focused_at(mouse.position) && mouse.clicked
    }

    pub fn is_pressed(&self, mouse: Mouse) -> (pressed: bool)
        ensures
            pressed == self.pressed_by(mouse),
    {
        if !self.enabled {
            return false;
        }
        self.is_focused(mouse.position) && mouse.clicked
    }

    /// The colour in which the button is drawn: that of a focused button
    /// with the mouse on it, else that of a disabled or of an enabled one.
    pub open spec fn color_at(self, position: Vector2) -> Color {
        if self.focused_at(position) {
            ScreenElements::focused_color()
        } else if !self.enabled {
            ScreenElements::disabled_color()
        } else {
            ScreenElements::default_color()
        }
    }

    pub fn get_color(&self, position: Vector2) -> (color: Color)
        ensures
            color == self.color_at(position),
    {
        if self.is_focused(position) {
            return ScreenElements::focused_color();
        }
        if !self.enabled {
            return ScreenElements::disabled_color();
        }
        ScreenElements::default_color()
    }

    /// A button with the same rectangle, text and place.
    pub fn duplicate(&self) -> (copy: Button)
        ensures
            copy == *self,
    {
        Button { rect: self.rect, enabled: self.enabled, text: self.text.clone(), pos: self.pos }
    }
}

impl ScreenElements {
    /// The elements of a screen, each button with its colour for the mouse
    /// at `position`.
    pub fn new(texts: Vec<Text>, buttons: Vec<Button>, fields: Vec<TextField>, position: Vector2)
        -> (elements: ScreenElements)
        ensures
            elements.texts == texts,
            elements.fields == fields,
            elements.buttons.len() == buttons.len(),
            forall|i: int|
                0 <= i < buttons.len() ==> (#[trigger] elements.buttons[i]) == (
                    buttons[i],
                    buttons[i].color_at(position),
                ),
    {
        let length: usize = buttons.len();
        let mut colored: Vec<(Button, Color)> = Vec::with_capacity(length);
        let mut i: usize = 0;
        while i < length
            invariant
                i <= length,
                length == buttons.len(),
                colored.len() == i,
                forall|j: int|
                    0 <= j < i ==> (#[trigger] colored[j]) == (
                        buttons[j],
                        buttons[j].color_at(position),
                    ),
            decreases length - i,
        {
            colored.push((buttons[i].duplicate(), buttons[i].get_color(position)));
            i = i + 1;
        }
        ScreenElements { texts, fields, buttons: colored }
    }
}

impl TextField {
    /// Whether the field has its two rectangles.
    #[verifier::when_used_as_spec(wf_spec)]
    pub fn wf(&self) -> (sound: bool)
        ensures
            sound == self.wf_spec(),
    {
        self.rects.len() >= 2
    }

    /// Whether the field has its two rectangles.
    pub open spec fn wf_spec(&self) -> bool {
        self.rects.len() >= 2
    }

    /// A field `width` wide whose middle stands at `relative_pos`, with an
    /// outline `outline_tickness` thick, showing the placeholder, which is
    /// `placeholder_width` pixels wide in the font of size `text_size`, in
    /// the first of the colours.
    pub fn new(
        format: String,
        placeholder: &str,
        width: i64,
        text_size: i32,
        relative_pos: Vector2,
        outline_tickness: i64,
        colors: Vec<Color>,
        max_length: usize,
        placeholder_width: i32,
    ) -> (field: TextField)
        requires
            colors.len() >= 1,
        ensures
            field.wf(),
            field.rects.len() == 2,
            field.rects[0] == (Rectangle {
                x: difference_of(
                    product_of(SCREEN_WIDTH, relative_pos.x),
                    product_of(width, (ONE / 2) as i64),
                ),
                y: difference_of(product_of(SCREEN_HEIGHT, relative_pos.y), (10 * ONE) as i64),
                width,
                height: (40 * ONE) as i64,
            }),
            field.rects[1] == (Rectangle {
                x: difference_of(
                    product_of(SCREEN_WIDTH, relative_pos.x),
                    product_of(difference_of(width, outline_tickness), (ONE / 2) as i64),
                ),
                y: sum_of(
                    difference_of(product_of(SCREEN_HEIGHT, relative_pos.y), (10 * ONE) as i64),
                    product_of(outline_tickness, (ONE / 2) as i64),
                ),
                width: difference_of(width, outline_tickness),
                height: difference_of((40 * ONE) as i64, outline_tickness),
            }),
            field.pos == (Vector2 {
                x: centered_left(relative_pos.x, placeholder_width),
                y: product_of(SCREEN_HEIGHT, relative_pos.y),
            }),
            field.text.text@ == placeholder@,
            field.text.pos == field.pos,
            field.text.color == colors[0],
            field.text.size == text_size,
            field.text.relative_pos == relative_pos,
            field.placeholder@ == placeholder@,
            field.value@ == Seq::<char>::empty(),
            field.max_length == max_length,
            field.colors == colors,
            field.format == format,
    {
        let middle: i64 = fx_mul(SCREEN_WIDTH, relative_pos.x);
        let top: i64 = fx_sub(fx_mul(SCREEN_HEIGHT, relative_pos.y), 10 * ONE);
        let inner: i64 = fx_sub(width, outline_tickness);
        let mut rects: Vec<Rectangle> = Vec::new();
        rects.push(Rectangle::new(fx_sub(middle, fx_mul(width, ONE / 2)), top, width, 40 * ONE));
        rects.push(
            Rectangle::new(
                fx_sub(middle, fx_mul(inner, ONE / 2)),
                fx_add(top, fx_mul(outline_tickness, ONE / 2)),
                inner,
                fx_sub(40 * ONE, outline_tickness),
            ),
        );
        TextField {
            pos: Vector2 {
                x: center_left(relative_pos.x, placeholder_width),
                y: fx_mul(SCREEN_HEIGHT, relative_pos.y),
            },
            rects,
            text: Text::new(placeholder, relative_pos, colors[0], text_size, placeholder_width),
            placeholder: placeholder.to_owned(),
            value: String::new(),
            max_length,
            colors,
            format,
        }
    }

    /// Whether the mouse is on the inner area of the field.
    pub open spec fn focused_at(self, position: Vector2) -> bool {
        self.rects[1].holds_point(position)
    }

    pub fn is_focused(&self, position: Vector2) -> (focused: bool)
        requires
            self.wf(),
        ensures
            focused == self.focused_at(position),
    {
        self.rects[1].check_collision_point_rec(position)
    }

    /// Whether the text of the field holds an address of four numbers with
    /// dots between them, as `regex` finds it by `IPV4_PATTERN`.
    pub fn is_ipv4(&self) -> (found: bool)
        ensures
            found == (pattern_match(IPV4_PATTERN@, self.text.text@) == Some(true)),
    {
        match regex_match(IPV4_PATTERN, self.text.text.as_str()) {
            Some(found) => found,
            None => false,
        }
    }

    /// The text that counts as typed: nothing while the placeholder
    /// stands in the field.
    pub open spec fn shown(self) -> Seq<char> {
        if self.text.text@ == self.placeholder@ {
            Seq::empty()
        } else {
            self.text.text@
        }
    }

    /// Whether the text has reached the greatest length, in bytes.
    pub open spec fn is_full(self) -> bool {
        vstd::utf8::encode_utf8(self.shown()).len() as usize >= self.max_length
    }

    /// Whether the field takes the character of a key: the field is not
    /// full, the mouse is on it, and the character matches the format.
    pub open spec fn takes(self, key: u8, position: Vector2) -> bool {
        &&& !self.is_full()
        &&& self.focused_at(position)
        &&& pattern_match(self.format@, seq![key as char]) == Some(true)
    }

    /// The text after a key: as it was without a key; else the typed text
    /// without its last character for the erase key, with the character of
    /// the key where the field takes it, and unchanged where not.
    pub open spec fn typed(self, key: u8, position: Vector2) -> Seq<char> {
        if key == 0 {
            self.text.text@
        } else if key == KEY_ERASE {
            if self.shown().len() > 0 {
                self.shown().drop_last()
            } else {
                self.shown()
            }
        } else if self.takes(key, position) {
            self.shown().push(key as char)
        } else {
            self.shown()
        }
    }

    /// Whether a key changes what is typed, so that the text has to be put
    /// back round its middle: the erase key does, and a key whose character
    /// the field takes.
    pub open spec fn retyped(self, key: u8, position: Vector2) -> bool {
        key != 0 && (key == KEY_ERASE || self.takes(key, position))
    }

    /// Whether `after` is the field after a key: its text is the text
    /// after that key, and nothing else has changed.
    pub open spec fn types_to(self, after: TextField, key: u8, position: Vector2) -> bool {
        &&& after.text.text@ == self.typed(key, position)
        &&& after == (TextField {
            text: Text { text: after.text.text, ..self.text },
            ..self
        })
    }

    /// Takes the key that was pressed in this frame, 0 standing for none.
    pub fn update(&mut self, key: u8, position: Vector2) -> (retyped: bool)
        requires
            old(self).wf(),
        ensures
            old(self).types_to(*final(self), key, position),
            retyped == old(self).retyped(key, position),
    {
        if key == 0 {
            return false;
        }
        if self.text.text == self.placeholder {
            self.text.text = String::new();
        }
        assert(self.text.text@ =~= old(self).shown());
        let is_erasing: bool = key == KEY_ERASE;
        let is_full: bool = self.text.text.as_str().len() >= self.max_length;
        assert(is_full == old(self).is_full());
        if is_erasing {
            self.text.text.pop();
            return true;
        } else if is_full {
            return false;
        }
        let focused: bool = self.is_focused(position);
        let mut input: String = String::new();
        input.push(key as char);
        assert(input@ =~= seq![key as char]);
        let valid: bool = match regex_match(self.format.as_str(), input.as_str()) {
            Some(found) => found,
            None => false,
        };
        if !focused || !valid {
            return false;
        }
        self.text.text.push(key as char);
        true
    }
}

/// A vector with the same items.
pub fn copied<T: Copy>(items: &Vec<T>) -> (copy: Vec<T>)
    ensures
        copy@ == items@,
{
    let mut copy: Vec<T> = Vec::with_capacity(items.len());
    let mut i: usize = 0;
    while i < items.len()
        invariant
            i <= items.len(),
            copy@ == items@.take(i as int),
        decreases items.len() - i,
    {
        copy.push(items[i]);
        assert(copy@ =~= items@.take(i + 1));
        i = i + 1;
    }
    assert(items@.take(items.len() as int) =~= items@);
    copy
}

impl Text {
    /// A text with the same words, place, colour and size.
    pub fn duplicate(&self) -> (copy: Text)
        ensures
            copy == *self,
    {
        Text {
            relative_pos: self.relative_pos,
            color: self.color,
            text: self.text.clone(),
            pos: self.pos,
            size: self.size,
        }
    }
}

impl TextField {
    /// Whether `copy` is a field like this one: with the same rectangles
    /// and colours, one by one, and the same place, greatest length, format,
    /// text, value and placeholder.
    pub open spec fn copied_as(self, copy: TextField) -> bool {
        &&& copy.rects@ == self.rects@
        &&& copy.colors@ == self.colors@
        &&& copy.pos == self.pos
        &&& copy.max_length == self.max_length
        &&& copy.format == self.format
        &&& copy.text == self.text
        &&& copy.value == self.value
        &&& copy.placeholder == self.placeholder
    }

    /// A field with the same rectangles, colours, format and texts.
    pub fn duplicate(&self) -> (copy: TextField)
        ensures
            self.copied_as(copy),
    {
        TextField {
            rects: copied(&self.rects),
            pos: self.pos,
            colors: copied(&self.colors),
            max_length: self.max_length,
            format: self.format.clone(),
            text: self.text.duplicate(),
            value: self.value.clone(),
            placeholder: self.placeholder.clone(),
        }
    }
}

} // verus!
