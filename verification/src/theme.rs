//! Themes: a color palette, a named-style map, and built-in palettes.

use crate::style::{Color, Style};
use vstd::prelude::*;

verus! {

/// A color palette: the base colors a theme builds every style from.
#[derive(Debug, Clone, Copy, PartialEq, Eq, Structural)]
pub struct ColorPalette {
    /// Default background color
    pub background: Color,
    /// Default foreground (text) color
    pub foreground: Color,
    /// Primary accent color (interactive elements)
    pub primary: Color,
    /// Secondary accent color (highlights)
    pub secondary: Color,
    /// Accent color (emphasis)
    pub accent: Color,
    /// Error state color
    pub error: Color,
    /// Warning state color
    pub warning: Color,
    /// Success state color
    pub success: Color,
}

impl Default for ColorPalette {
    /// The default palette is the dark one.
    fn default() -> (p: Self)
        ensures
            p == ColorPalette::dark_spec(),
    {
        Self::dark()
    }
}

impl ColorPalette {
    /// The dark palette, as a spec-level value.
    pub open spec fn dark_spec() -> ColorPalette {
        ColorPalette {
            background: Color::Black,
            foreground: Color::White,
            primary: Color::Blue,
            secondary: Color::Cyan,
            accent: Color::Magenta,
            error: Color::Red,
            warning: Color::Yellow,
            success: Color::Green,
        }
    }

    /// The light palette, as a spec-level value.
    pub open spec fn light_spec() -> ColorPalette {
        ColorPalette {
            background: Color::White,
            foreground: Color::Black,
            primary: Color::Blue,
            secondary: Color::Cyan,
            accent: Color::Magenta,
            error: Color::Red,
            warning: Color::Yellow,
            success: Color::Green,
        }
    }

    /// The slime palette, as a spec-level value.
    pub open spec fn slime_spec() -> ColorPalette {
        ColorPalette {
            background: Color::Rgb(30, 35, 36),
            foreground: Color::Rgb(224, 224, 224),
            primary: Color::Rgb(168, 223, 90),
            secondary: Color::Rgb(128, 181, 179),
            accent: Color::Rgb(174, 193, 153),
            error: Color::Rgb(205, 101, 100),
            warning: Color::Rgb(255, 240, 153),
            success: Color::Rgb(174, 193, 153),
        }
    }

    /// A dark palette.
    pub fn dark() -> (p: Self)
        ensures
            p == Self::dark_spec(),
    {
        ColorPalette {
            background: Color::Black,
            foreground: Color::White,
            primary: Color::Blue,
            secondary: Color::Cyan,
            accent: Color::Magenta,
            error: Color::Red,
            warning: Color::Yellow,
            success: Color::Green,
        }
    }

    /// A light palette.
    pub fn light() -> (p: Self)
        ensures
            p == Self::light_spec(),
    {
        ColorPalette {
            background: Color::White,
            foreground: Color::Black,
            primary: Color::Blue,
            secondary: Color::Cyan,
            accent: Color::Magenta,
            error: Color::Red,
            warning: Color::Yellow,
            success: Color::Green,
        }
    }

    /// A dark palette with green and cyan accents.
    pub fn slime() -> (p: Self)
        ensures
            p == Self::slime_spec(),
    {
        ColorPalette {
            background: Color::Rgb(30, 35, 36),
            foreground: Color::Rgb(224, 224, 224),
            primary: Color::Rgb(168, 223, 90),
            secondary: Color::Rgb(128, 181, 179),
            accent: Color::Rgb(174, 193, 153),
            error: Color::Rgb(205, 101, 100),
            warning: Color::Rgb(255, 240, 153),
            success: Color::Rgb(174, 193, 153),
        }
    }
}

/// What a name resolves to in a list of named styles: the first entry
/// whose name matches, scanned front to back.
pub open spec fn style_lookup(entries: Seq<(String, Style)>, name: Seq<char>) -> Option<Style>
    decreases entries.len(),
{
    if entries.len() <= 0 {
        Option::None
    } else if entries[0].0@ == name {
        Option::Some(entries[0].1)
    } else {
        style_lookup(entries.drop_first(), name)
    }
}

/// A map from semantic style names to styles.
#[derive(Debug, Clone)]
pub struct StyleMap {
    /// The named styles, in insertion order
    pub entries: Vec<(String, Style)>,
}

proof fn lemma_lookup_skip(entries: Seq<(String, Style)>, i: int, name: Seq<char>)
    requires
        0 <= i < entries.len(),
        entries[i].0@ != name,
    ensures
        style_lookup(entries.skip(i), name) == style_lookup(entries.skip(i + 1), name),
{
    assert(entries.skip(i)[0] == entries[i]);
    assert(entries.skip(i).drop_first() =~= entries.skip(i + 1));
}

proof fn lemma_lookup_update(entries: Seq<(String, Style)>, i: int, v: (String, Style))
    requires
        0 <= i < entries.len(),
        entries[i].0@ == v.0@,
        forall|j: int| 0 <= j < i ==> (#[trigger] entries[j]).0@ != v.0@,
    ensures
        style_lookup(entries.update(i, v), v.0@) == Option::Some(v.1),
        forall|n: Seq<char>|
            n != v.0@ ==> style_lookup(entries.update(i, v), n) == style_lookup(entries, n),
    decreases i,
{
    if i == 0 {
        assert(entries.update(0, v)[0] == v);
        assert(entries.update(0, v).drop_first() =~= entries.drop_first());
        assert forall|n: Seq<char>|
            n != v.0@ implies style_lookup(entries.update(0, v), n) == style_lookup(
            entries,
            n,
        ) by {
            assert(style_lookup(entries.update(0, v), n) == style_lookup(
                entries.update(0, v).drop_first(),
                n,
            ));
            assert(style_lookup(entries, n) == style_lookup(entries.drop_first(), n));
        }
    } else {
        lemma_lookup_update(entries.drop_first(), i - 1, v);
        assert(entries.update(i, v).drop_first() =~= entries.drop_first().update(i - 1, v));
        assert(entries.update(i, v)[0] == entries[0]);
        assert(entries[0].0@ != v.0@);
        assert forall|n: Seq<char>|
            n != v.0@ implies style_lookup(entries.update(i, v), n) == style_lookup(
            entries,
            n,
        ) by {
            if entries[0].0@ == n {
            } else {
                assert(style_lookup(entries.update(i, v), n) == style_lookup(
                    entries.drop_first().update(i - 1, v),
                    n,
                ));
                assert(style_lookup(entries.drop_first().update(i - 1, v), n) == style_lookup(
                    entries.drop_first(),
                    n,
                ));
                assert(style_lookup(entries, n) == style_lookup(entries.drop_first(), n));
            }
        }
    }
}

proof fn lemma_lookup_push(entries: Seq<(String, Style)>, v: (String, Style))
    requires
        forall|j: int| 0 <= j < entries.len() ==> (#[trigger] entries[j]).0@ != v.0@,
    ensures
        style_lookup(entries.push(v), v.0@) == Option::Some(v.1),
        forall|n: Seq<char>|
            n != v.0@ ==> style_lookup(entries.push(v), n) == style_lookup(entries, n),
    decreases entries.len(),
{
    if entries.len() == 0 {
        assert(entries.push(v)[0] == v);
        assert(entries.push(v).drop_first() =~= entries);
        assert forall|n: Seq<char>|
            n != v.0@ implies style_lookup(entries.push(v), n) == style_lookup(entries, n) by {
            assert(style_lookup(entries.push(v), n) == style_lookup(
                entries.push(v).drop_first(),
                n,
            ));
        }
    } else {
        lemma_lookup_push(entries.drop_first(), v);
        assert(entries.push(v).drop_first() =~= entries.drop_first().push(v));
        assert(entries.push(v)[0] == entries[0]);
        assert(entries[0].0@ != v.0@);
        assert forall|n: Seq<char>|
            n != v.0@ implies style_lookup(entries.push(v), n) == style_lookup(entries, n) by {
            if entries[0].0@ == n {
            } else {
                assert(style_lookup(entries.push(v), n) == style_lookup(
                    entries.drop_first().push(v),
                    n,
                ));
                assert(style_lookup(entries.drop_first().push(v), n) == style_lookup(
                    entries.drop_first(),
                    n,
                ));
                assert(style_lookup(entries, n) == style_lookup(entries.drop_first(), n));
            }
        }
    }
}

impl StyleMap {
    /// Creates an empty style map.
    pub fn new() -> (m: Self)
        ensures
            m.entries@.len() == 0,
    {
        StyleMap { entries: Vec::new() }
    }

    /// How many names the map holds.
    pub fn len(&self) -> (n: usize)
        ensures
            n == self.entries@.len(),
    {
        self.entries.len()
    }

    /// Whether the map holds no names.
    pub fn is_empty(&self) -> (r: bool)
        ensures
            r == (self.entries@.len() == 0),
    {
        self.entries.len() == 0
    }

    /// The style stored under `name`, if any.
    pub fn get(&self, name: &str) -> (r: Option<Style>)
        ensures
            r == style_lookup(self.entries@, name@),
    {
        let key = String::from_str(name);
        let n = self.entries.len();
        proof {
            assert(self.entries@.skip(0) =~= self.entries@);
        }
        let mut i: usize = 0;
        while i < n
            invariant
                n == self.entries@.len(),
                i <= n,
                key@ == name@,
                style_lookup(self.entries@, name@) == style_lookup(
                    self.entries@.skip(i as int),
                    name@,
                ),
            decreases n - i,
        {
            if self.entries[i].0 == key {
                proof {
                    assert(self.entries@.skip(i as int)[0] == self.entries@[i as int]);
                }
                return Option::Some(self.entries[i].1);
            }
            proof {
                lemma_lookup_skip(self.entries@, i as int, name@);
            }
            i = i + 1;
        }
        proof {
            assert(self.entries@.skip(n as int) =~= Seq::<(String, Style)>::empty());
        }
        Option::None
    }

    /// Whether the map holds a style under `name`.
    pub fn contains_key(&self, name: &str) -> (r: bool)
        ensures
            r == (style_lookup(self.entries@, name@) is Some),
    {
        self.get(name).is_some()
    }

    /// Stores `style` under `name`, replacing any earlier entry.
    pub fn insert(&mut self, name: String, style: Style)
        ensures
            style_lookup(final(self).entries@, name@) == Option::Some(style),
            forall|n: Seq<char>|
                n != name@ ==> style_lookup(final(self).entries@, n) == style_lookup(
                    old(self).entries@,
                    n,
                ),
    {
        let n = self.entries.len();
        let mut i: usize = 0;
        while i < n
            invariant
                self == old(self),
                n == self.entries@.len(),
                i <= n,
                forall|j: int| 0 <= j < i ==> (#[trigger] self.entries@[j]).0@ != name@,
            decreases n - i,
        {
            if self.entries[i].0 == name {
                proof {
                    lemma_lookup_update(self.entries@, i as int, (name, style));
                }
                self.entries.set(i, (name, style));
                return ;
            }
            i = i + 1;
        }
        proof {
            lemma_lookup_push(self.entries@, (name, style));
        }
        self.entries.push((name, style));
    }
}

/// The styles every theme starts from, phrased over the palette: what
/// each built-in name must resolve to.
pub open spec fn is_default_styles(entries: Seq<(String, Style)>, c: ColorPalette) -> bool {
    &&& style_lookup(entries, "base"@) == Option::Some(
        Style { fg: Option::Some(c.foreground), bg: Option::Some(c.background), ..Style::spec_new() },
    )
    &&& style_lookup(entries, "title"@) == Option::Some(Style::spec_fg(c.primary))
    &&& style_lookup(entries, "border"@) == Option::Some(Style::spec_fg(c.secondary))
    &&& style_lookup(entries, "text"@) == Option::Some(Style::spec_fg(c.foreground))
    &&& style_lookup(entries, "selected"@) == Option::Some(
        Style { fg: Option::Some(c.background), bg: Option::Some(c.primary), ..Style::spec_new() },
    )
    &&& style_lookup(entries, "highlight"@) == Option::Some(Style::spec_fg(c.accent))
    &&& style_lookup(entries, "focus"@) == Option::Some(Style::spec_fg(c.primary))
    &&& style_lookup(entries, "error"@) == Option::Some(Style::spec_fg(c.error))
    &&& style_lookup(entries, "warning"@) == Option::Some(Style::spec_fg(c.warning))
    &&& style_lookup(entries, "success"@) == Option::Some(Style::spec_fg(c.success))
    &&& style_lookup(entries, "gauge_bar"@) == Option::Some(
        Style { fg: Option::Some(c.primary), bg: Option::Some(c.background), ..Style::spec_new() },
    )
    &&& style_lookup(entries, "gauge_label"@) == Option::Some(Style::spec_fg(c.foreground))
    &&& style_lookup(entries, "table_header"@) == Option::Some(Style::spec_fg(c.primary))
    &&& style_lookup(entries, "table_selected"@) == Option::Some(
        Style { fg: Option::Some(c.background), bg: Option::Some(c.primary), ..Style::spec_new() },
    )
    &&& style_lookup(entries, "list_selected"@) == Option::Some(
        Style { fg: Option::Some(c.background), bg: Option::Some(c.primary), ..Style::spec_new() },
    )
    &&& style_lookup(entries, "tab_active"@) == Option::Some(
        Style { fg: Option::Some(c.background), bg: Option::Some(c.primary), ..Style::spec_new() },
    )
    &&& style_lookup(entries, "tab_inactive"@) == Option::Some(Style::spec_fg(c.foreground))
}

/// A complete theme: a name, a palette, and named styles.
#[derive(Debug, Clone)]
pub struct Theme {
    /// Theme name
    pub name: String,
    /// Color palette
    pub colors: ColorPalette,
    /// Named style mappings
    pub styles: StyleMap,
}

impl Default for Theme {
    /// The default theme is the dark one.
    fn default() -> (t: Self)
        ensures
            t.name@ == "Dark"@,
            t.colors == ColorPalette::dark_spec(),
            is_default_styles(t.styles.entries@, t.colors),
    {
        Self::dark()
    }
}

impl Theme {
    /// Creates a theme from a name and a palette, with the default styles
    /// generated from the palette.
    pub fn new(name: &str, colors: ColorPalette) -> (t: Self)
        ensures
            t.name@ == name@,
            t.colors == colors,
            is_default_styles(t.styles.entries@, colors),
    {
        let styles = Self::default_styles(&colors);
        Theme { name: String::from_str(name), colors, styles }
    }

    /// The built-in dark theme.
    pub fn dark() -> (t: Self)
        ensures
            t.name@ == "Dark"@,
            t.colors == ColorPalette::dark_spec(),
            is_default_styles(t.styles.entries@, t.colors),
    {
        Self::new("Dark", ColorPalette::dark())
    }

    /// The built-in light theme.
    pub fn light() -> (t: Self)
        ensures
            t.name@ == "Light"@,
            t.colors == ColorPalette::light_spec(),
            is_default_styles(t.styles.entries@, t.colors),
    {
        Self::new("Light", ColorPalette::light())
    }

    /// The built-in slime theme: a dark background with green and cyan
    /// accents.
    pub fn slime() -> (t: Self)
        ensures
            t.name@ == "Slime"@,
            t.colors == ColorPalette::slime_spec(),
            is_default_styles(t.styles.entries@, t.colors),
    {
        Self::new("Slime", ColorPalette::slime())
    }

    /// The style stored under `name`, or a plain foreground style when
    /// the name is unknown.
    pub fn get_style(&self, name: &str) -> (r: Style)
        ensures
            r == (match style_lookup(self.styles.entries@, name@) {
                Option::Some(s) => s,
                Option::None => Style::spec_fg(self.colors.foreground),
            }),
    {
        match self.styles.get(name) {
            Option::Some(s) => s,
            Option::None => Style::new().fg(self.colors.foreground),
        }
    }

    /// Stores `style` under `name`.
    pub fn set_style(&mut self, name: &str, style: Style)
        ensures
            final(self).name == old(self).name,
            final(self).colors == old(self).colors,
            style_lookup(final(self).styles.entries@, name@) == Option::Some(style),
            forall|n: Seq<char>|
                n != name@ ==> style_lookup(final(self).styles.entries@, n) == style_lookup(
                    old(self).styles.entries@,
                    n,
                ),
    {
        self.styles.insert(String::from_str(name), style);
    }

    /// The base style: the palette's foreground on its background.
    pub fn base_style(&self) -> (r: Style)
        ensures
            r.fg == Some(self.colors.foreground),
            r.bg == Some(self.colors.background),
            r.modifiers.0 == 0,
    {
        Style::new().fg(self.colors.foreground).bg(self.colors.background)
    }

    /// The primary style.
    pub fn primary_style(&self) -> (r: Style)
        ensures
            r == Style::spec_fg(self.colors.primary),
    {
        Style::new().fg(self.colors.primary)
    }

    /// The secondary style.
    pub fn secondary_style(&self) -> (r: Style)
        ensures
            r == Style::spec_fg(self.colors.secondary),
    {
        Style::new().fg(self.colors.secondary)
    }

    /// The accent style.
    pub fn accent_style(&self) -> (r: Style)
        ensures
            r == Style::spec_fg(self.colors.accent),
    {
        Style::new().fg(self.colors.accent)
    }

    /// The error style.
    pub fn error_style(&self) -> (r: Style)
        ensures
            r == Style::spec_fg(self.colors.error),
    {
        Style::new().fg(self.colors.error)
    }

    /// The warning style.
    pub fn warning_style(&self) -> (r: Style)
        ensures
            r == Style::spec_fg(self.colors.warning),
    {
        Style::new().fg(self.colors.warning)
    }

    /// The success style.
    pub fn success_style(&self) -> (r: Style)
        ensures
            r == Style::spec_fg(self.colors.success),
    {
        Style::new().fg(self.colors.success)
    }

    /// Builds the default style map for a palette.
    #[verifier::rlimit(100)]
    fn default_styles(colors: &ColorPalette) -> (m: StyleMap)
        ensures
            is_default_styles(m.entries@, *colors),
    {
        proof {
            reveal_strlit("base");
            reveal_strlit("title");
            reveal_strlit("border");
            reveal_strlit("text");
            reveal_strlit("selected");
            reveal_strlit("highlight");
            reveal_strlit("focus");
            reveal_strlit("error");
            reveal_strlit("warning");
            reveal_strlit("success");
            reveal_strlit("gauge_bar");
            reveal_strlit("gauge_label");
            reveal_strlit("table_header");
            reveal_strlit("table_selected");
            reveal_strlit("list_selected");
            reveal_strlit("tab_active");
            reveal_strlit("tab_inactive");
            assert("base"@.len() == 4 && "title"@.len() == 5 && "border"@.len() == 6);
            assert("text"@.len() == 4 && "selected"@.len() == 8 && "highlight"@.len() == 9);
            assert("focus"@.len() == 5 && "error"@.len() == 5 && "warning"@.len() == 7);
            assert("success"@.len() == 7 && "gauge_bar"@.len() == 9);
            assert("gauge_label"@.len() == 11 && "table_header"@.len() == 12);
            assert("table_selected"@.len() == 14 && "list_selected"@.len() == 13);
            assert("tab_active"@.len() == 10 && "tab_inactive"@.len() == 12);
            assert("base"@[0] == 'b' && "text"@[0] == 't');
            assert("title"@[0] == 't' && "focus"@[0] == 'f' && "error"@[0] == 'e');
            assert("warning"@[0] == 'w' && "success"@[0] == 's');
            assert("highlight"@[0] == 'h' && "gauge_bar"@[0] == 'g');
            assert("table_header"@[3] == 'l' && "tab_inactive"@[3] == '_');
        }
        let mut styles = StyleMap::new();

        styles.insert(
            String::from_str("base"),
            Style::new().fg(colors.foreground).bg(colors.background),
        );
        styles.insert(String::from_str("title"), Style::new().fg(colors.primary));
        styles.insert(String::from_str("border"), Style::new().fg(colors.secondary));
        styles.insert(String::from_str("text"), Style::new().fg(colors.foreground));

        styles.insert(
            String::from_str("selected"),
            Style::new().fg(colors.background).bg(colors.primary),
        );
        styles.insert(String::from_str("highlight"), Style::new().fg(colors.accent));
        styles.insert(String::from_str("focus"), Style::new().fg(colors.primary));

        styles.insert(String::from_str("error"), Style::new().fg(colors.error));
        styles.insert(String::from_str("warning"), Style::new().fg(colors.warning));
        styles.insert(String::from_str("success"), Style::new().fg(colors.success));

        styles.insert(
            String::from_str("gauge_bar"),
            Style::new().fg(colors.primary).bg(colors.background),
        );
        styles.insert(String::from_str("gauge_label"), Style::new().fg(colors.foreground));
        styles.insert(String::from_str("table_header"), Style::new().fg(colors.primary));
        styles.insert(
            String::from_str("table_selected"),
            Style::new().fg(colors.background).bg(colors.primary),
        );
        styles.insert(
            String::from_str("list_selected"),
            Style::new().fg(colors.background).bg(colors.primary),
        );
        styles.insert(
            String::from_str("tab_active"),
            Style::new().fg(colors.background).bg(colors.primary),
        );
        styles.insert(String::from_str("tab_inactive"), Style::new().fg(colors.foreground));

        proof {
            let e = styles.entries@;
            let c = *colors;
            assert(style_lookup(e, "tab_inactive"@) == Option::Some(Style::spec_fg(c.foreground)));
            let sel = Style {
                fg: Option::Some(c.background),
                bg: Option::Some(c.primary),
                ..Style::spec_new()
            };
            assert(style_lookup(e, "tab_active"@) == Option::Some(sel));
            assert(style_lookup(e, "list_selected"@) == Option::Some(sel));
            assert(style_lookup(e, "table_selected"@) == Option::Some(sel));
            assert(style_lookup(e, "table_header"@) == Option::Some(Style::spec_fg(c.primary)));
            assert(style_lookup(e, "gauge_label"@) == Option::Some(Style::spec_fg(c.foreground)));
            assert(style_lookup(e, "gauge_bar"@) == Option::Some(
                Style {
                    fg: Option::Some(c.primary),
                    bg: Option::Some(c.background),
                    ..Style::spec_new()
                },
            ));
            assert(style_lookup(e, "success"@) == Option::Some(Style::spec_fg(c.success)));
            assert(style_lookup(e, "warning"@) == Option::Some(Style::spec_fg(c.warning)));
            assert(style_lookup(e, "error"@) == Option::Some(Style::spec_fg(c.error)));
            assert(style_lookup(e, "focus"@) == Option::Some(Style::spec_fg(c.primary)));
            assert(style_lookup(e, "highlight"@) == Option::Some(Style::spec_fg(c.accent)));
            assert(style_lookup(e, "selected"@) == Option::Some(sel));
            assert(style_lookup(e, "text"@) == Option::Some(Style::spec_fg(c.foreground)));
            assert(style_lookup(e, "border"@) == Option::Some(Style::spec_fg(c.secondary)));
            assert(style_lookup(e, "title"@) == Option::Some(Style::spec_fg(c.primary)));
            assert(style_lookup(e, "base"@) == Option::Some(
                Style {
                    fg: Option::Some(c.foreground),
                    bg: Option::Some(c.background),
                    ..Style::spec_new()
                },
            ));
        }
        styles
    }
}

} // verus!
