//! The theme menu as the view sees it.

use vstd::prelude::*;
use crate::models::theme::{THEME_DEFAULT_VALUE, Theme, ThemeCollection, ThemeData, theme_texts};

verus! {

/// The theme in force: the stored one, or the default where none is stored.
pub open spec fn theme_in_force(stored: Option<Seq<char>>) -> Seq<char> {
    match stored {
        Some(value) => value,
        None => THEME_DEFAULT_VALUE@,
    }
}

/// The theme menu and the theme that is in force.
#[derive(Debug)]
pub struct ThemeViewModel {
    theme_collection: ThemeCollection,
    current_theme: Option<String>,
}

impl Clone for ThemeViewModel {
    fn clone(&self) -> (copy: Self)
        ensures
            copy.themes() == self.themes(),
            copy.stored() == self.stored(),
    {
        let current_theme = match &self.current_theme {
            Some(value) => Some(value.clone()),
            None => None,
        };
        Self { theme_collection: self.theme_collection.clone(), current_theme }
    }
}

impl ThemeViewModel {
    /// The stored theme, where one is stored.
    pub closed spec fn stored(&self) -> Option<Seq<char>> {
        match self.current_theme {
            Some(value) => Some(value@),
            None => None,
        }
    }

    /// The themes of the menu.
    pub closed spec fn themes(&self) -> Seq<Theme> {
        self.theme_collection.themes@
    }

    /// The menu of the seven themes, with the theme that was stored.
    pub fn new(stored_theme: Option<String>) -> (model: Self)
        ensures
            model.stored() == match stored_theme {
                Some(value) => Some(value@),
                None => None,
            },
            model.themes().len() == 7,
            forall|place: int|
                0 <= place < 7 ==> ((#[trigger] model.themes()[place]).value@,
                model.themes()[place].label@) == theme_texts(place),
    {
        Self { theme_collection: ThemeCollection::new(), current_theme: stored_theme }
    }

    /// The theme to store when the menu is first shown: the default where
    /// none is stored yet, nothing where one is.
    pub fn use_theme(stored: Option<&str>) -> (to_store: Option<&'static str>)
        ensures
            to_store == match stored {
                Some(_) => None::<&'static str>,
                None => Some(THEME_DEFAULT_VALUE),
            },
    {
        match stored {
            Some(_) => None,
            None => Some(THEME_DEFAULT_VALUE),
        }
    }

    /// The themes of the menu.
    pub fn theme_collection(&self) -> (collection: &ThemeCollection)
        ensures
            collection.themes@ == self.themes(),
    {
        &self.theme_collection
    }

    /// The theme in force.
    pub fn current_theme(&self) -> (value: &str)
        ensures
            value@ == theme_in_force(self.stored()),
    {
        match &self.current_theme {
            Some(value) => value.as_str(),
            None => THEME_DEFAULT_VALUE,
        }
    }

    /// The theme in force, as a value of its own.
    pub fn get_theme(&self) -> (value: String)
        ensures
            value@ == theme_in_force(self.stored()),
    {
        self.current_theme().to_owned()
    }

    /// Puts a theme in force.
    pub fn set_current_theme(&mut self, theme_value: &'static str)
        ensures
            final(self).stored() == Some(theme_value@),
            final(self).themes() == old(self).themes(),
    {
        self.current_theme = Some(theme_value.to_owned());
    }

    /// Takes the choice of a theme from the menu: the theme is put in force
    /// and handed back as the value to store.
    pub fn theme_change_callback(&mut self, theme_value: &'static str) -> (to_store: String)
        ensures
            final(self).stored() == Some(theme_value@),
            final(self).themes() == old(self).themes(),
            to_store@ == theme_value@,
    {
        self.set_current_theme(theme_value);
        self.get_theme()
    }

    /// Whether the menu shows the theme as the chosen one.
    pub fn is_checked(&self, theme: &Theme) -> (checked: bool)
        ensures
            checked == (theme.value@ == theme_in_force(self.stored())),
    {
        let current = self.current_theme();
        theme.value.to_owned() == current.to_owned()
    }

    /// The entries of the theme menu.
    pub fn themes_data(&self) -> (entries: Vec<ThemeData>)
        ensures
            entries@.len() == self.themes().len(),
            forall|place: int|
                0 <= place < entries@.len() ==> {
                    &&& (#[trigger] entries@[place]).spec_value() == self.themes()[place].value
                    &&& entries@[place].spec_name() == self.themes()[place].label
                },
    {
        self.theme_collection.themes_data()
    }
}

} // verus!
