use manrf::app::App;
use manrf::defs::Element;
use manrf::defs::State;
use manrf::elements::Padding;
use manrf::event::Button;
use manrf::event::Event;
use manrf::example_components::ComponentDefinition;
use manrf::graphics::GraphicOperation;
use manrf::graphics::GraphicOperationQueue;
use manrf::graphics::GraphicsEndpoint;
use manrf::utils::Constraints;
use manrf::utils::EdgeInsets;
use manrf::utils::Rgb;
use manrf::utils::Size;
use manrf::BoxElement;
use manrf::ItemSelectorState;
use manrf::ListSelector;
use manrf::Number;
use manrf::Stack;
use manrf::Text;

struct CollectingEndpoint {
    ops: Vec<GraphicOperation>,
}

impl GraphicsEndpoint for CollectingEndpoint {
    fn draw_queue(&mut self, mut queue: GraphicOperationQueue) {
        self.ops = queue.drain();
    }
}

struct CanvasState;

impl State for CanvasState {
    fn initial() -> Self {
        CanvasState
    }
    fn generate(&self, _id: u32) -> Element {
        let size_16 = Size::new(16, 16);
        Stack::col(vec![
            BoxElement::exactly(size_16, Rgb::new(255, 0, 0), None),
            BoxElement::exactly(size_16, Rgb::new(0, 255, 0), None),
            BoxElement::exactly(size_16, Rgb::new(0, 0, 255), None),
        ])
    }
    fn run_handler(&mut self, _id: u32, _event: Event) -> bool {
        false
    }
    fn selector_len(&self, _id: u32) -> usize {
        0
    }
    fn selector_state(&self, _id: u32) -> ItemSelectorState {
        ItemSelectorState::default()
    }
    fn set_selector_state(&mut self, _id: u32, _st: ItemSelectorState) {}
    fn render_item(&self, _id: u32, _index: usize, _active: bool) -> Element {
        Text::new(String::new())
    }
}

#[test]
fn app_tests_create_canvas() {
    let comp = ComponentDefinition::new(0);
    let mut state = CanvasState::initial();
    let root = comp.render(&mut state);
    let (_size, _tree) = root.render(Constraints::up_to(Size::new(64, 64)), &state);
}

struct SmallCanvasState;

impl State for SmallCanvasState {
    fn initial() -> Self {
        SmallCanvasState
    }
    fn generate(&self, _id: u32) -> Element {
        let size_8 = Size::new(8, 8);
        Stack::col(vec![
            BoxElement::exactly(size_8, Rgb::new(255, 0, 0), None),
            BoxElement::exactly(size_8, Rgb::new(0, 255, 0), None),
            BoxElement::exactly(size_8, Rgb::new(0, 0, 255), None),
        ])
    }
    fn run_handler(&mut self, _id: u32, _event: Event) -> bool {
        false
    }
    fn selector_len(&self, _id: u32) -> usize {
        0
    }
    fn selector_state(&self, _id: u32) -> ItemSelectorState {
        ItemSelectorState::default()
    }
    fn set_selector_state(&mut self, _id: u32, _st: ItemSelectorState) {}
    fn render_item(&self, _id: u32, _index: usize, _active: bool) -> Element {
        Text::new(String::new())
    }
}

#[test]
fn display_tests_create_canvas() {
    let endpoint = CollectingEndpoint { ops: Vec::new() };
    let mut app: App<SmallCanvasState, CollectingEndpoint> =
        App::new(0, Size::new(30, 30), endpoint);
    app.draw();
    assert_eq!(app.endpoint.ops.len(), 3);
}

struct TextCanvasState;

impl State for TextCanvasState {
    fn initial() -> Self {
        TextCanvasState
    }
    fn generate(&self, _id: u32) -> Element {
        let size_8 = Size::new(8, 8);
        Stack::col(vec![
            BoxElement::exactly(size_8, Rgb::new(255, 0, 0), None),
            Text::new("Hi".to_string()),
            BoxElement::exactly(size_8, Rgb::new(0, 0, 255), None),
            Text::new("This is some Text".to_string()),
        ])
    }
    fn run_handler(&mut self, _id: u32, _event: Event) -> bool {
        false
    }
    fn selector_len(&self, _id: u32) -> usize {
        0
    }
    fn selector_state(&self, _id: u32) -> ItemSelectorState {
        ItemSelectorState::default()
    }
    fn set_selector_state(&mut self, _id: u32, _st: ItemSelectorState) {}
    fn render_item(&self, _id: u32, _index: usize, _active: bool) -> Element {
        Text::new(String::new())
    }
}

#[test]
fn create_canvas_2() {
    let endpoint = CollectingEndpoint { ops: Vec::new() };
    let mut app: App<TextCanvasState, CollectingEndpoint> =
        App::new(0, Size::new(80, 80), endpoint);
    app.draw();
    assert_eq!(app.endpoint.ops.len(), 4);
}

struct PaddedCanvasState;

impl State for PaddedCanvasState {
    fn initial() -> Self {
        PaddedCanvasState
    }
    fn generate(&self, _id: u32) -> Element {
        let size_8 = Size::new(8, 8);
        Stack::col(vec![
            BoxElement::exactly(size_8, Rgb::new(255, 0, 0), None),
            Padding::new(EdgeInsets::symmetric(2, 3), Text::new("Hi".to_string())),
            BoxElement::exactly(size_8, Rgb::new(0, 0, 255), None),
            Text::new("This is some Text".to_string()),
        ])
    }
    fn run_handler(&mut self, _id: u32, _event: Event) -> bool {
        false
    }
    fn selector_len(&self, _id: u32) -> usize {
        0
    }
    fn selector_state(&self, _id: u32) -> ItemSelectorState {
        ItemSelectorState::default()
    }
    fn set_selector_state(&mut self, _id: u32, _st: ItemSelectorState) {}
    fn render_item(&self, _id: u32, _index: usize, _active: bool) -> Element {
        Text::new(String::new())
    }
}

#[test]
fn mutate_component() {
    let endpoint = CollectingEndpoint { ops: Vec::new() };
    let mut app: App<PaddedCanvasState, CollectingEndpoint> =
        App::new(0, Size::new(80, 80), endpoint);
    app.draw();
    assert_eq!(app.endpoint.ops.len(), 4);
}

struct CounterState {
    counter: i32,
}

impl State for CounterState {
    fn initial() -> Self {
        CounterState { counter: 0 }
    }
    fn generate(&self, _id: u32) -> Element {
        Number::new(self.counter)
    }
    fn run_handler(&mut self, id: u32, event: Event) -> bool {
        if id == 0 {
            match event {
                Event::ButtonPressed(Button::Principal) => {
                    self.counter += 1;
                    true
                }
                _ => false,
            }
        } else {
            false
        }
    }
    fn selector_len(&self, _id: u32) -> usize {
        0
    }
    fn selector_state(&self, _id: u32) -> ItemSelectorState {
        ItemSelectorState::default()
    }
    fn set_selector_state(&mut self, _id: u32, _st: ItemSelectorState) {}
    fn render_item(&self, _id: u32, _index: usize, _active: bool) -> Element {
        Text::new(String::new())
    }
}

#[test]
fn component_definition() {
    let mut state = CounterState::initial();
    let mut component = ComponentDefinition::new(0);
    component.events_listener = Some(0);

    assert_eq!(component.render(&mut state).to_string(), "0");
    component.run_event_listener(&mut state, Event::ButtonPressed(Button::Principal));
    assert_eq!(component.render(&mut state).to_string(), "1");
    component.run_event_listener(&mut state, Event::ButtonPressed(Button::Secondary));
    assert_eq!(component.render(&mut state).to_string(), "1");
}

struct ListSelectorState2 {
    elements: Vec<i32>,
    selected: usize,
}

impl State for ListSelectorState2 {
    fn initial() -> Self {
        ListSelectorState2 {
            elements: vec![1, 2, 3],
            selected: 0,
        }
    }
    fn generate(&self, _id: u32) -> Element {
        Stack::col(vec![
            Text::new("Select an element".to_string()),
            ListSelector::new(
                self.elements.iter().map(|element| Number::new(*element)).collect(),
                self.selected,
            ),
        ])
    }
    fn run_handler(&mut self, id: u32, event: Event) -> bool {
        if id == 0 {
            match event {
                Event::ButtonPressed(Button::Principal) => {
                    self.selected = (self.selected + 1) % self.elements.len();
                    true
                }
                _ => false,
            }
        } else {
            false
        }
    }
    fn selector_len(&self, _id: u32) -> usize {
        0
    }
    fn selector_state(&self, _id: u32) -> ItemSelectorState {
        ItemSelectorState::default()
    }
    fn set_selector_state(&mut self, _id: u32, _st: ItemSelectorState) {}
    fn render_item(&self, _id: u32, _index: usize, _active: bool) -> Element {
        Text::new(String::new())
    }
}

#[test]
fn component_list_selector_event() {
    let mut state = ListSelectorState2::initial();
    let mut component = ComponentDefinition::new(0);
    component.events_listener = Some(0);

    assert_eq!(component.render(&mut state).to_string(), "[Select an element, 1]");
    component.run_event_listener(&mut state, Event::ButtonPressed(Button::Principal));
    assert_eq!(component.render(&mut state).to_string(), "[Select an element, 2]");
    component.run_event_listener(&mut state, Event::ButtonPressed(Button::Principal));
    assert_eq!(component.render(&mut state).to_string(), "[Select an element, 3]");
    component.run_event_listener(&mut state, Event::ButtonPressed(Button::Principal));
    assert_eq!(component.render(&mut state).to_string(), "[Select an element, 1]");
}
