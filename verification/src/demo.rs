//! A sample application: a key list with an item-selector screen and a
//! detail screen, switched by committing or dismissing a selection.

use vstd::prelude::*;

use crate::defs::Element;
use crate::defs::GeneratorId;
use crate::defs::HandlerId;
use crate::defs::SelectorId;
use crate::defs::State;
use crate::elements::align::Alignment;
use crate::elements::align::Alignment2D;
use crate::elements::background;
use crate::elements::border;
use crate::elements::center;
use crate::elements::component::Component;
use crate::elements::handler::Handler;
use crate::elements::style::BorderDefinition;
use crate::elements::style::Style;
use crate::elements::style::StyleDefinition;
use crate::event::Button;
use crate::event::Event;
use crate::model::ElementModel;
use crate::palette::palette_dream;
use crate::palette::spec_palette_dream;
use crate::utils::decimal::spec_u32_string;
use crate::utils::decimal::u32_to_string;
use crate::utils::edge_insets::EdgeInsets;
use crate::utils::geometry::Rgb;
use crate::ItemSelector;
use crate::ItemSelectorState;
use crate::Text;
use vstd::string::StringExecFns;

verus! {

/// The generator id of the whole menu screen.
pub const MAIN_MENU_VIEW: GeneratorId = 0;

/// The generator id of the key list screen.
pub const ITEM_SELECTOR_VIEW: GeneratorId = 1;

/// The generator id of the detail screen for a committed selection.
pub const SELECTED_VIEW: GeneratorId = 2;

/// The handler id that dismisses a committed selection.
pub const GO_BACK: HandlerId = 0;

/// The selector id bound to the key list.
pub const KEYS_SELECTOR: SelectorId = 0;

/// One entry of the list: a label and a numeric key.
pub struct Key {
    pub text: String,
    pub key: u32,
}

impl Key {
    pub fn new(text: &str, key: u32) -> (k: Key)
        ensures
            k.text@ == text@,
            k.key == key,
    {
        Key { text: String::from_str(text), key }
    }
}

impl Default for Key {
    fn default() -> (k: Key)
        ensures
            k.text@ == "Default"@,
            k.key == 0,
    {
        Key { text: String::from_str("Default"), key: 0 }
    }
}

/// The sample application's state: the keys and the list cursor.
pub struct AppState {
    pub keys: Vec<Key>,
    pub keys_selected_state: ItemSelectorState,
}

impl Default for AppState {
    /// Three keys, the cursor on the first, nothing committed.
    fn default() -> (s: AppState)
        ensures
            s.keys@.len() == 3,
            s.keys@[0].text@ == "First"@ && s.keys@[0].key == 1,
            s.keys@[1].text@ == "Second"@ && s.keys@[1].key == 2,
            s.keys@[2].text@ == "Third"@ && s.keys@[2].key == 3,
            s.keys_selected_state == (ItemSelectorState { active: 0usize, selected: None }),
    {
        let keys: Vec<Key> = vec![
            Key::new("First", 1),
            Key::new("Second", 2),
            Key::new("Third", 3),
        ];
        AppState { keys, keys_selected_state: ItemSelectorState { active: 0, selected: None } }
    }
}

/// The style shared by the list entries: dream colors, asymmetric edges.
pub open spec fn spec_bordered_style() -> StyleDefinition {
    StyleDefinition {
        background: Some(spec_palette_dream().darkest),
        margin: (EdgeInsets { top: 2u32, right: 4u32, bottom: 2u32, left: 4u32 }),
        border: (BorderDefinition {
            color: spec_palette_dream().dark,
            size: (EdgeInsets { top: 1u32, right: 2u32, bottom: 3u32, left: 4u32 }),
        }),
        padding: (EdgeInsets { top: 2u32, right: 2u32, bottom: 2u32, left: 2u32 }),
    }
}

pub fn bordered_style() -> (d: StyleDefinition)
    ensures
        d == spec_bordered_style(),
{
    StyleDefinition {
        background: Some(palette_dream().darkest),
        margin: EdgeInsets::symmetric(2, 4),
        border: BorderDefinition::new(palette_dream().dark, EdgeInsets::new(1, 2, 3, 4)),
        padding: EdgeInsets::all(2),
    }
}

/// The label a list entry shows for one key.
pub open spec fn spec_key_label(text: Seq<char>, key: u32) -> Seq<char> {
    "Key: "@ + text + " "@ + spec_u32_string(key)
}

/// The label the detail screen shows for one key.
pub open spec fn spec_selected_label(text: Seq<char>, key: u32) -> Seq<char> {
    "Selected: "@ + text + " "@ + spec_u32_string(key)
}

fn key_label(k: &Key) -> (s: String)
    ensures
        s@ == spec_key_label(k.text@, k.key),
{
    let mut label = String::from_str("Key: ");
    label.append(k.text.as_str());
    label.append(" ");
    let digits = u32_to_string(k.key);
    label.append(digits.as_str());
    proof {
        reveal_strlit("Key: ");
        reveal_strlit(" ");
        assert(label@ =~= spec_key_label(k.text@, k.key));
    }
    label
}

/// The key the detail screen describes: the committed key when its index
/// is still valid, else a placeholder. A committed index can go stale
/// when the collection shrinks between renders, so it is validated
/// rather than trusted.
pub open spec fn spec_selected_key(s: AppState) -> (Seq<char>, u32) {
    match s.keys_selected_state.selected {
        Some(index) => {
            if index < s.keys@.len() {
                (s.keys@[index as int].text@, s.keys@[index as int].key)
            } else {
                ("Default"@, 0u32)
            }
        },
        None => ("Default"@, 0u32),
    }
}

/// What the key list screen shows: the selector bound to the keys.
pub fn item_selector_view(_state: &AppState) -> (e: Element)
    ensures
        e@ == (ElementModel::ItemSelector { selector: KEYS_SELECTOR }),
{
    ItemSelector::new(KEYS_SELECTOR)
}

/// What the detail screen shows for this state.
pub open spec fn spec_selected_view(s: AppState) -> ElementModel {
    ElementModel::Handler {
        handler: GO_BACK,
        child: Box::new(
            ElementModel::Style {
                style: StyleDefinition {
                    background: None,
                    margin: (EdgeInsets { top: 0u32, right: 0u32, bottom: 0u32, left: 0u32 }),
                    border: (BorderDefinition {
                        color: spec_palette_dream().darkest,
                        size: (EdgeInsets { top: 2u32, right: 2u32, bottom: 2u32, left: 2u32 }),
                    }),
                    padding: (EdgeInsets { top: 0u32, right: 0u32, bottom: 0u32, left: 0u32 }),
                },
                child: Box::new(
                    ElementModel::Text {
                        val: spec_selected_label(
                            spec_selected_key(s).0,
                            spec_selected_key(s).1,
                        ),
                    },
                ),
            },
        ),
    }
}

/// The detail screen: the committed key's label behind the dismiss
/// handler.
pub fn selected_view(state: &AppState) -> (e: Element)
    ensures
        e@ == spec_selected_view(*state),
{
    let fallback_text = "Default";
    let picked: (String, u32) = match state.keys_selected_state.selected {
        Some(index) => {
            if index < state.keys.len() {
                (state.keys[index].text.clone(), state.keys[index].key)
            } else {
                (String::from_str(fallback_text), 0)
            }
        },
        None => (String::from_str(fallback_text), 0),
    };
    let mut label = String::from_str("Selected: ");
    label.append(picked.0.as_str());
    label.append(" ");
    let digits = u32_to_string(picked.1);
    label.append(digits.as_str());
    proof {
        reveal_with_fuel(crate::model::elem_model, 6);
        reveal_strlit("Selected: ");
        reveal_strlit(" ");
        reveal_strlit("Default");
        assert(label@ =~= spec_selected_label(spec_selected_key(*state).0, spec_selected_key(*state).1));
    }
    Handler::new(
        GO_BACK,
        border(
            BorderDefinition::new(palette_dream().darkest, EdgeInsets::all(2)),
            Text::new(label),
        ),
    )
}

/// What the whole menu screen shows for this state.
pub open spec fn spec_main_menu(s: AppState) -> ElementModel {
    let is_selected = s.keys_selected_state.selected is Some;
    ElementModel::Style {
        style: StyleDefinition {
            background: Some(spec_palette_dream().darkest),
            margin: (EdgeInsets { top: 0u32, right: 0u32, bottom: 0u32, left: 0u32 }),
            border: (BorderDefinition {
                color: (Rgb { r: 0u8, g: 0u8, b: 0u8 }),
                size: (EdgeInsets { top: 0u32, right: 0u32, bottom: 0u32, left: 0u32 }),
            }),
            padding: (EdgeInsets { top: 0u32, right: 0u32, bottom: 0u32, left: 0u32 }),
        },
        child: Box::new(
            ElementModel::Align {
                alignment: (Alignment2D {
                    horizontal: Alignment::Center,
                    vertical: Alignment::Center,
                }),
                child: Box::new(
                    ElementModel::Stack {
                        items: seq![
                            ElementModel::Style {
                                style: StyleDefinition {
                                    background: None,
                                    margin: (EdgeInsets {
                                        top: 0u32,
                                        right: 0u32,
                                        bottom: 0u32,
                                        left: 0u32,
                                    }),
                                    border: (BorderDefinition {
                                        color: spec_palette_dream().darkest,
                                        size: (EdgeInsets {
                                            top: 2u32,
                                            right: 2u32,
                                            bottom: 2u32,
                                            left: 2u32,
                                        }),
                                    }),
                                    padding: (EdgeInsets {
                                        top: 0u32,
                                        right: 0u32,
                                        bottom: 0u32,
                                        left: 0u32,
                                    }),
                                },
                                child: Box::new(
                                    ElementModel::Text {
                                        val: if is_selected {
                                            "Selected"@
                                        } else {
                                            "Not selected"@
                                        },
                                    },
                                ),
                            },
                            ElementModel::Component {
                                generator: if is_selected {
                                    SELECTED_VIEW
                                } else {
                                    ITEM_SELECTOR_VIEW
                                },
                            },
                        ],
                    },
                ),
            },
        ),
    }
}

/// The whole menu screen: a heading above either the key list or the
/// detail screen, centered on a dream-palette background.
pub fn main_menu(state: &AppState) -> (e: Element)
    ensures
        e@ == spec_main_menu(*state),
{
    let is_selected = state.keys_selected_state.selected.is_some();
    let actual_view: GeneratorId = if is_selected {
        SELECTED_VIEW
    } else {
        ITEM_SELECTOR_VIEW
    };
    let title = if is_selected {
        String::from_str("Selected")
    } else {
        String::from_str("Not selected")
    };
    let heading = border(
        BorderDefinition::new(palette_dream().darkest, EdgeInsets::all(2)),
        Text::new(title),
    );
    let body = Component::new(actual_view);
    let ghost heading_model = heading@;
    let ghost body_model = body@;
    let items: Vec<Element> = vec![heading, body];
    let ghost items_view = items@;
    let e = background(palette_dream().darkest, center(crate::Stack::col(items)));
    proof {
        reveal_with_fuel(crate::model::elem_model, 8);
        reveal_strlit("Selected");
        reveal_strlit("Not selected");
        crate::model::lemma_elems_model_len(items_view);
        assert(crate::model::elems_model(items_view) =~= seq![heading_model, body_model]);
    }
    e
}

impl State for AppState {
    /// The sample's starting state: three keys, cursor on the first.
    fn initial() -> (s: AppState)
        ensures
            s.keys@.len() == 3,
            s.keys_selected_state == (ItemSelectorState { active: 0usize, selected: None }),
    {
        AppState::default()
    }

    open spec fn spec_generate(self, id: GeneratorId) -> ElementModel {
        if id == MAIN_MENU_VIEW {
            spec_main_menu(self)
        } else if id == ITEM_SELECTOR_VIEW {
            ElementModel::ItemSelector { selector: KEYS_SELECTOR }
        } else if id == SELECTED_VIEW {
            spec_selected_view(self)
        } else {
            ElementModel::Text { val: Seq::empty() }
        }
    }

    fn generate(&self, id: GeneratorId) -> (e: Element) {
        if id == MAIN_MENU_VIEW {
            main_menu(self)
        } else if id == ITEM_SELECTOR_VIEW {
            item_selector_view(self)
        } else if id == SELECTED_VIEW {
            selected_view(self)
        } else {
            Text::new(String::new())
        }
    }

    open spec fn spec_handle(self, id: HandlerId, event: Event) -> (AppState, bool) {
        if id == GO_BACK && event == Event::ButtonPressed(Button::Back) {
            (
                AppState {
                    keys: self.keys,
                    keys_selected_state: ItemSelectorState {
                        active: self.keys_selected_state.active,
                        selected: None,
                    },
                },
                true,
            )
        } else {
            (self, false)
        }
    }

    fn run_handler(&mut self, id: HandlerId, event: Event) -> (consumed: bool) {
        if id == GO_BACK {
            match event {
                Event::ButtonPressed(Button::Back) => {
                    self.keys_selected_state = ItemSelectorState {
                        active: self.keys_selected_state.active,
                        selected: None,
                    };
                    true
                },
                _ => false,
            }
        } else {
            false
        }
    }

    open spec fn spec_selector_len(self, id: SelectorId) -> usize {
        if id == KEYS_SELECTOR {
            self.keys@.len() as usize
        } else {
            0usize
        }
    }

    fn selector_len(&self, id: SelectorId) -> (n: usize) {
        if id == KEYS_SELECTOR {
            self.keys.len()
        } else {
            0
        }
    }

    open spec fn spec_selector_state(self, id: SelectorId) -> ItemSelectorState {
        if id == KEYS_SELECTOR {
            self.keys_selected_state
        } else {
            ItemSelectorState { active: 0usize, selected: None }
        }
    }

    fn selector_state(&self, id: SelectorId) -> (st: ItemSelectorState) {
        if id == KEYS_SELECTOR {
            self.keys_selected_state
        } else {
            ItemSelectorState::default()
        }
    }

    open spec fn spec_with_selector_state(self, id: SelectorId, st: ItemSelectorState) -> AppState {
        if id == KEYS_SELECTOR {
            AppState { keys: self.keys, keys_selected_state: st }
        } else {
            self
        }
    }

    fn set_selector_state(&mut self, id: SelectorId, st: ItemSelectorState) {
        if id == KEYS_SELECTOR {
            self.keys_selected_state = st;
        }
    }

    open spec fn spec_render_item(self, id: SelectorId, index: usize, active: bool) -> ElementModel {
        if id == KEYS_SELECTOR && index < self.keys@.len() {
            ElementModel::Style {
                style: StyleDefinition {
                    background: Some(
                        if active {
                            spec_palette_dream().light
                        } else {
                            spec_palette_dream().darkest
                        },
                    ),
                    margin: spec_bordered_style().margin,
                    border: spec_bordered_style().border,
                    padding: spec_bordered_style().padding,
                },
                child: Box::new(
                    ElementModel::Text {
                        val: spec_key_label(
                            self.keys@[index as int].text@,
                            self.keys@[index as int].key,
                        ),
                    },
                ),
            }
        } else {
            ElementModel::Text { val: Seq::empty() }
        }
    }

    fn render_item(&self, id: SelectorId, index: usize, active: bool) -> (e: Element) {
        if id == KEYS_SELECTOR && index < self.keys.len() {
            let base = bordered_style();
            let chosen = if active {
                palette_dream().light
            } else {
                palette_dream().darkest
            };
            let e = Style::new_with_style(
                StyleDefinition {
                    background: Some(chosen),
                    margin: base.margin,
                    border: base.border,
                    padding: base.padding,
                },
                Text::new(key_label(&self.keys[index])),
            );
            proof {
                reveal_with_fuel(crate::model::elem_model, 4);
                assert(e@ == self.spec_render_item(id, index, active));
            }
            e
        } else {
            let e = Text::new(String::new());
            proof {
                assert(e@ == (ElementModel::Text { val: Seq::<char>::empty() }));
            }
            e
        }
    }
}

/// The cursor invariant for the sample state: whatever event the key
/// list's selector is handed, the active cursor stays inside the key
/// collection, as long as it was inside before.
pub proof fn lemma_keys_cursor_in_range(s: AppState, ev: Event)
    requires
        s.keys@.len() > 0,
        s.keys_selected_state.active < s.keys@.len(),
    ensures
        crate::model::spec_selector_event(s, KEYS_SELECTOR, ev).0.keys_selected_state.active
            < s.keys@.len(),
{
}

} // verus!
