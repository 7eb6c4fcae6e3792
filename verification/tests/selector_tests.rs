use manrf::app::App;
use manrf::defs::Element;
use manrf::defs::State;
use manrf::demo::AppState;
use manrf::demo::KEYS_SELECTOR;
use manrf::demo::MAIN_MENU_VIEW;
use manrf::event::Button;
use manrf::event::Direction;
use manrf::event::Event;
use manrf::graphics::GraphicOperation;
use manrf::graphics::GraphicOperationQueue;
use manrf::graphics::GraphicsEndpoint;
use manrf::graphics::RecordingEndpoint;
use manrf::utils::Size;
use manrf::ItemSelector;
use manrf::ItemSelectorState;
use manrf::Text;

struct CollectingEndpoint {
    ops: Vec<GraphicOperation>,
}

impl GraphicsEndpoint for CollectingEndpoint {
    fn draw_queue(&mut self, mut queue: GraphicOperationQueue) {
        self.ops = queue.drain();
    }
}

fn down() -> Event {
    Event::DirectionPressed(Direction::Down)
}

fn up() -> Event {
    Event::DirectionPressed(Direction::Up)
}

#[test]
fn selector_down_moves_without_wraparound() {
    let mut state = AppState::default();
    let selector = ItemSelector::new(KEYS_SELECTOR);
    assert_eq!(state.keys_selected_state.active, 0);

    assert!(selector.event_handler(&mut state, down()));
    assert_eq!(state.keys_selected_state.active, 1);

    assert!(selector.event_handler(&mut state, down()));
    assert_eq!(state.keys_selected_state.active, 2);

    // At the last item the cursor stays put; the event is still consumed.
    assert!(selector.event_handler(&mut state, down()));
    assert_eq!(state.keys_selected_state.active, 2);
}

#[test]
fn selector_up_moves_and_stops_at_zero() {
    let mut state = AppState::default();
    let selector = ItemSelector::new(KEYS_SELECTOR);
    selector.event_handler(&mut state, down());
    assert_eq!(state.keys_selected_state.active, 1);

    assert!(selector.event_handler(&mut state, up()));
    assert_eq!(state.keys_selected_state.active, 0);

    assert!(selector.event_handler(&mut state, up()));
    assert_eq!(state.keys_selected_state.active, 0);
}

#[test]
fn selector_principal_commits_active_item() {
    let mut state = AppState::default();
    let selector = ItemSelector::new(KEYS_SELECTOR);
    selector.event_handler(&mut state, down());
    selector.event_handler(&mut state, down());

    assert!(selector.event_handler(&mut state, Event::ButtonPressed(Button::Principal)));
    assert_eq!(state.keys_selected_state.selected, Some(2));

    // Navigation stays live after a commit in the current design.
    assert!(selector.event_handler(&mut state, up()));
    assert_eq!(state.keys_selected_state.active, 1);
    assert_eq!(state.keys_selected_state.selected, Some(2));
}

#[test]
fn selector_ignores_other_events() {
    let mut state = AppState::default();
    let selector = ItemSelector::new(KEYS_SELECTOR);
    assert!(!selector.event_handler(&mut state, Event::ButtonPressed(Button::Secondary)));
    assert!(!selector.event_handler(&mut state, Event::ButtonPressed(Button::Back)));
    assert!(!selector.event_handler(&mut state, Event::DirectionPressed(Direction::Left)));
    assert_eq!(state.keys_selected_state.active, 0);
    assert_eq!(state.keys_selected_state.selected, None);
}

struct EmptySelectorState {
    cursor: ItemSelectorState,
}

impl State for EmptySelectorState {
    fn initial() -> Self {
        EmptySelectorState {
            cursor: ItemSelectorState::default(),
        }
    }
    fn generate(&self, _id: u32) -> Element {
        Text::new(String::new())
    }
    fn run_handler(&mut self, _id: u32, _event: Event) -> bool {
        false
    }
    fn selector_len(&self, _id: u32) -> usize {
        0
    }
    fn selector_state(&self, _id: u32) -> ItemSelectorState {
        self.cursor
    }
    fn set_selector_state(&mut self, _id: u32, st: ItemSelectorState) {
        self.cursor = st;
    }
    fn render_item(&self, _id: u32, _index: usize, _active: bool) -> Element {
        Text::new(String::new())
    }
}

#[test]
fn selector_over_empty_collection_is_a_no_op() {
    let mut state = EmptySelectorState::initial();
    let selector = ItemSelector::new(0);
    assert!(selector.event_handler(&mut state, down()));
    assert_eq!(state.cursor.active, 0);
    assert!(selector.event_handler(&mut state, up()));
    assert_eq!(state.cursor.active, 0);
}

#[test]
fn render_item_labels_keys() {
    let state = AppState::default();
    let entry = state.render_item(KEYS_SELECTOR, 0, true);
    assert_eq!(entry.to_string(), "Key: First 1");
    let entry = state.render_item(KEYS_SELECTOR, 2, false);
    assert_eq!(entry.to_string(), "Key: Third 3");
}

fn draw_text_contents(ops: &[GraphicOperation]) -> Vec<String> {
    ops.iter()
        .filter_map(|op| match op {
            GraphicOperation::DrawText { text, .. } => Some(text.clone()),
            _ => None,
        })
        .collect()
}

#[test]
fn demo_flow_selects_and_dismisses() {
    let endpoint = CollectingEndpoint { ops: Vec::new() };
    let mut app: App<AppState, CollectingEndpoint> =
        App::new(MAIN_MENU_VIEW, Size::new(128, 128), endpoint);

    app.draw();
    let texts = draw_text_contents(&app.endpoint.ops);
    assert!(texts.contains(&"Not selected".to_string()));
    assert!(texts.contains(&"Key: First 1".to_string()));
    assert!(texts.contains(&"Key: Third 3".to_string()));

    app.handle_event(down());
    app.handle_event(down());
    app.handle_event(Event::ButtonPressed(Button::Principal));
    app.draw();
    let texts = draw_text_contents(&app.endpoint.ops);
    assert!(texts.contains(&"Selected".to_string()));
    assert!(texts.contains(&"Selected: Third 3".to_string()));

    app.handle_event(Event::ButtonPressed(Button::Back));
    app.draw();
    let texts = draw_text_contents(&app.endpoint.ops);
    assert!(texts.contains(&"Not selected".to_string()));
    assert!(texts.contains(&"Key: Third 3".to_string()));
}

#[test]
fn unhandled_event_keeps_output_identical() {
    let endpoint = CollectingEndpoint { ops: Vec::new() };
    let mut app: App<AppState, CollectingEndpoint> =
        App::new(MAIN_MENU_VIEW, Size::new(128, 128), endpoint);

    app.draw();
    let before_ops = app.endpoint.ops.clone();
    let before_text = app.to_string();

    // Nothing in the initial view handles a Left press.
    let consumed = app.handle_event(Event::DirectionPressed(Direction::Left));
    assert!(!consumed);

    app.draw();
    assert_eq!(app.endpoint.ops, before_ops);
    assert_eq!(app.to_string(), before_text);
}

#[test]
fn repeated_draws_flush_equal_queues() {
    let mut app: App<AppState, RecordingEndpoint> =
        App::new(MAIN_MENU_VIEW, Size::new(128, 128), RecordingEndpoint::new());

    app.draw();
    app.draw();
    assert_eq!(app.endpoint.queues.len(), 2);
    assert_eq!(app.endpoint.queues[0], app.endpoint.queues[1]);

    // A consumed event changes the tree, and with it the next frame.
    assert!(app.handle_event(down()));
    app.draw();
    assert_eq!(app.endpoint.queues.len(), 3);
    assert_ne!(app.endpoint.queues[1], app.endpoint.queues[2]);
}
