//! The themes that the calculator can be shown in.

use vstd::prelude::*;

verus! {

/// The value that stands for the theme chosen by the browser.
pub const THEME_DEFAULT_VALUE: &'static str = "default";

/// A theme: the value that selects it and the label it is listed under.
#[derive(Clone, Copy, Debug)]
pub struct Theme {
    pub value: &'static str,
    pub label: &'static str,
}

/// What the theme menu needs of one theme.
#[derive(Clone, Copy, Debug)]
pub struct ThemeData {
    value: &'static str,
    name: &'static str,
}

impl ThemeData {
    pub closed spec fn spec_value(&self) -> &'static str {
        self.value
    }

    pub closed spec fn spec_name(&self) -> &'static str {
        self.name
    }

    /// The entry of the menu for a theme.
    pub fn new(theme: &Theme) -> (data: Self)
        ensures
            data.spec_value() == theme.value,
            data.spec_name() == theme.label,
    {
        ThemeData { value: theme.value, name: theme.label }
    }

    /// The value that selects the theme.
    #[verifier::when_used_as_spec(spec_value)]
    pub fn value(&self) -> (value: &'static str)
        ensures
            value == self.spec_value(),
    {
        self.value
    }

    /// The name that the menu shows.
    #[verifier::when_used_as_spec(spec_name)]
    pub fn name(&self) -> (name: &'static str)
        ensures
            name == self.spec_name(),
    {
        self.name
    }
}

/// The themes on offer, in the order of the menu.
#[derive(Debug)]
pub struct ThemeCollection {
    pub themes: Vec<Theme>,
}

impl Clone for ThemeCollection {
    fn clone(&self) -> (copy: Self)
        ensures
            copy.themes@ == self.themes@,
    {
        let themes = self.themes.clone();
        assert(themes@ =~= self.themes@);
        Self { themes }
    }
}

/// The value and the label of the theme at a place of the menu.
pub open spec fn theme_texts(place: int) -> (Seq<char>, Seq<char>) {
    if place == 0 {
        ("default"@, "자동"@)
    } else if place == 1 {
        ("light"@, "라이트"@)
    } else if place == 2 {
        ("dark"@, "다크"@)
    } else if place == 3 {
        ("caramellatte"@, "카라멜라떼"@)
    } else if place == 4 {
        ("valentine"@, "발렌타인"@)
    } else if place == 5 {
        ("aqua"@, "아쿠아"@)
    } else {
        ("synthwave"@, "신스웨이브"@)
    }
}

impl ThemeCollection {
    /// The seven themes of the calculator.
    pub fn new() -> (collection: Self)
        ensures
            collection.themes@.len() == 7,
            forall|place: int|
                0 <= place < 7 ==> ((#[trigger] collection.themes@[place]).value@,
                collection.themes@[place].label@) == theme_texts(place),
    {
        let mut themes: Vec<Theme> = Vec::new();
        themes.push(Theme { value: "default", label: "자동" });
        themes.push(Theme { value: "light", label: "라이트" });
        themes.push(Theme { value: "dark", label: "다크" });
        themes.push(Theme { value: "caramellatte", label: "카라멜라떼" });
        themes.push(Theme { value: "valentine", label: "발렌타인" });
        themes.push(Theme { value: "aqua", label: "아쿠아" });
        themes.push(Theme { value: "synthwave", label: "신스웨이브" });
        Self { themes }
    }

    /// The entries of the theme menu, one for each theme and in their order.
    pub fn themes_data(&self) -> (entries: Vec<ThemeData>)
        ensures
            entries@.len() == self.themes@.len(),
            forall|place: int|
                0 <= place < entries@.len() ==> {
                    &&& (#[trigger] entries@[place]).spec_value() == self.themes@[place].value
                    &&& entries@[place].spec_name() == self.themes@[place].label
                },
    {
        let mut entries: Vec<ThemeData> = Vec::new();
        let mut place: usize = 0;
        while place < self.themes.len()
            invariant
                place <= self.themes.len(),
                entries@.len() == place,
                forall|i: int|
                    0 <= i < place ==> {
                        &&& (#[trigger] entries@[i]).spec_value() == self.themes@[i].value
                        &&& entries@[i].spec_name() == self.themes@[i].label
                    },
            decreases self.themes.len() - place,
        {
            entries.push(ThemeData::new(&self.themes[place]));
            place = place + 1;
        }
        entries
    }
}

} // verus!
