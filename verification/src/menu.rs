//! The menu: a fixed, non-empty list of labelled choices.

use crate::language::ProjectLanguage;
use vstd::prelude::*;

verus! {

/// One entry of a menu: what is shown, and the language it stands for.
#[derive(Clone, Debug, PartialEq, Eq)]
pub struct MenuItem {
    pub label: String,
    pub language: ProjectLanguage,
}

/// The mathematical value of a [`MenuItem`].
pub struct MenuItemModel {
    pub label: Seq<char>,
    pub language: ProjectLanguage,
}

impl View for MenuItem {
    type V = MenuItemModel;

    open spec fn view(&self) -> MenuItemModel {
        MenuItemModel { label: self.label@, language: self.language }
    }
}

impl DeepView for MenuItem {
    type V = MenuItemModel;

    open spec fn deep_view(&self) -> MenuItemModel {
        self@
    }
}

/// The largest number of entries a menu can hold. Each entry takes one
/// screen row below the prompt, and screen rows are 16-bit numbers.
pub const MAX_MENU_ITEMS: usize = 65535;

/// A list of entries that is a menu: it has at least one entry and at most
/// [`MAX_MENU_ITEMS`].
pub open spec fn is_menu(items: Seq<MenuItemModel>) -> bool {
    0 < items.len() <= MAX_MENU_ITEMS
}

/// The entry that offers a language under its own label.
pub open spec fn language_item(language: ProjectLanguage) -> MenuItemModel {
    MenuItemModel { label: language.label_text(), language }
}

/// The menu of all languages, in menu order.
pub open spec fn language_menu() -> Seq<MenuItemModel> {
    Seq::new(
        ProjectLanguage::menu_order().len(),
        |i: int| language_item(ProjectLanguage::menu_order()[i]),
    )
}

/// A menu. Its entries keep the order in which they were given, and none is
/// added or removed afterwards.
#[derive(Debug, PartialEq, Eq)]
pub struct Menu {
    items: Vec<MenuItem>,
}

impl View for Menu {
    type V = Seq<MenuItemModel>;

    closed spec fn view(&self) -> Seq<MenuItemModel> {
        self.items.deep_view()
    }
}

impl Menu {
    #[verifier::type_invariant]
    spec fn has_items(self) -> bool {
        0 < self.items.len() <= MAX_MENU_ITEMS
    }

    /// A menu of the given entries, or `None` where there are none or too
    /// many.
    pub fn new(items: Vec<MenuItem>) -> (menu: Option<Menu>)
        ensures
            menu.is_some() <==> is_menu(items.deep_view()),
            menu matches Some(m) ==> m@ == items.deep_view(),
    {
        if items.len() == 0 || items.len() > MAX_MENU_ITEMS {
            None
        } else {
            Some(Menu { items })
        }
    }

    /// The menu of all languages, in menu order.
    pub fn languages() -> (menu: Menu)
        ensures
            menu@ == language_menu(),
    {
        let languages = ProjectLanguage::all();
        let mut items: Vec<MenuItem> = Vec::new();
        let mut i: usize = 0;
        while i < languages.len()
            invariant
                i <= languages.len(),
                languages@ == ProjectLanguage::menu_order(),
                items.len() == i,
                forall|k: int|
                    0 <= k < i ==> (#[trigger] items[k])@ == language_item(
                        ProjectLanguage::menu_order()[k],
                    ),
            decreases languages.len() - i,
        {
            let language = languages[i];
            items.push(MenuItem { label: language.label().to_owned(), language });
            i += 1;
        }
        assert(items.deep_view() =~= language_menu());
        Menu { items }
    }

    /// The number of entries.
    pub fn len(&self) -> (len: usize)
        ensures
            len == self@.len(),
            is_menu(self@),
    {
        proof {
            use_type_invariant(self);
        }
        self.items.len()
    }

    /// The entry at `index`, if there is one.
    pub fn get(&self, index: usize) -> (item: Option<&MenuItem>)
        ensures
            item.is_some() <==> index < self@.len(),
            item matches Some(found) ==> found@ == self@[index as int],
    {
        if index < self.items.len() {
            Some(&self.items[index])
        } else {
            None
        }
    }
}

} // verus!
