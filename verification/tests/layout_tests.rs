use manrf::defs::Element;
use manrf::defs::ElementKind;
use manrf::defs::RenderNode;
use manrf::defs::State;
use manrf::demo::main_menu;
use manrf::demo::AppState;
use manrf::elements::center;
use manrf::elements::Style;
use manrf::elements::BorderDefinition;
use manrf::event::Event;
use manrf::utils::Constraints;
use manrf::utils::EdgeInsets;
use manrf::utils::Point;
use manrf::utils::Rgb;
use manrf::utils::Size;
use manrf::BoxElement;
use manrf::ItemSelectorState;
use manrf::ListSelector;
use manrf::Number;
use manrf::Stack;
use manrf::Text;

struct NullState;

impl State for NullState {
    fn initial() -> Self {
        NullState
    }
    fn generate(&self, _id: u32) -> Element {
        Text::new(String::new())
    }
    fn run_handler(&mut self, _id: u32, _event: Event) -> bool {
        false
    }
    fn selector_len(&self, _id: u32) -> usize {
        0
    }
    fn selector_state(&self, _id: u32) -> ItemSelectorState {
        ItemSelectorState::default()
    }
    fn set_selector_state(&mut self, _id: u32, _st: ItemSelectorState) {}
    fn render_item(&self, _id: u32, _index: usize, _active: bool) -> Element {
        Text::new(String::new())
    }
}

#[test]
fn stack_sizes_and_offsets() {
    let state = NullState;
    let stack = Stack::col(vec![
        BoxElement::exactly(Size::new(5, 10), Rgb::new(1, 2, 3), None),
        BoxElement::exactly(Size::new(8, 10), Rgb::new(4, 5, 6), None),
        BoxElement::exactly(Size::new(3, 10), Rgb::new(7, 8, 9), None),
    ]);
    let (size, tree) = stack.render(Constraints::up_to(Size::new(100, 100)), &state);
    assert_eq!(size, Size::new(8, 30));
    match tree {
        RenderNode::MultiChild { offset, size, child } => {
            assert_eq!(offset, Point::new(0, 0));
            assert_eq!(size, Size::new(8, 30));
            assert_eq!(child.len(), 3);
            let expected = [
                (Point::new(0, 0), Size::new(5, 10)),
                (Point::new(0, 10), Size::new(8, 10)),
                (Point::new(0, 20), Size::new(3, 10)),
            ];
            for (node, want) in child.iter().zip(expected.iter()) {
                match node {
                    RenderNode::SingleChild { offset, size, .. } => {
                        assert_eq!(*offset, want.0);
                        assert_eq!(*size, want.1);
                    }
                    _ => panic!("stack child should be a single-child node"),
                }
            }
        }
        _ => panic!("stack should render to a multi-child node"),
    }
}

#[test]
fn stack_clamps_to_constraints() {
    let state = NullState;
    let stack = Stack::col(vec![
        BoxElement::exactly(Size::new(50, 40), Rgb::new(0, 0, 0), None),
        BoxElement::exactly(Size::new(50, 40), Rgb::new(0, 0, 0), None),
    ]);
    let (size, _) = stack.render(Constraints::up_to(Size::new(30, 60)), &state);
    assert_eq!(size, Size::new(30, 60));
}

#[test]
fn text_measures_six_by_ten_glyphs() {
    let state = NullState;
    let text = Text::new("Hello".to_string());
    let (size, tree) = text.render(Constraints::up_to(Size::new(100, 100)), &state);
    assert_eq!(size, Size::new(30, 10));
    assert!(matches!(tree, RenderNode::Leaf));

    let tight = Constraints {
        min: Size::new(50, 20),
        max: Size::new(100, 100),
    };
    let (raised, _) = text.render(tight, &state);
    assert_eq!(raised, Size::new(50, 20));
}

#[test]
fn box_ignores_constraints_and_sizes_child_exactly() {
    let state = NullState;
    let boxed = BoxElement::exactly(
        Size::new(40, 20),
        Rgb::new(9, 9, 9),
        Some(Text::new("Hi".to_string())),
    );
    let (size, tree) = boxed.render(Constraints::up_to(Size::new(10, 10)), &state);
    assert_eq!(size, Size::new(40, 20));
    match tree {
        RenderNode::SingleChild { size, .. } => {
            // The child text is forced to exactly the box's size.
            assert_eq!(size, Size::new(40, 20));
        }
        _ => panic!("box with child should render a single-child node"),
    }
}

#[test]
fn align_centers_child() {
    let state = NullState;
    let aligned = center(BoxElement::exactly(Size::new(10, 10), Rgb::new(0, 0, 0), None));
    let (size, tree) = aligned.render(Constraints::up_to(Size::new(30, 20)), &state);
    assert_eq!(size, Size::new(30, 20));
    match tree {
        RenderNode::SingleChild { offset, size, .. } => {
            assert_eq!(offset, Point::new(10, 5));
            assert_eq!(size, Size::new(10, 10));
        }
        _ => panic!("align should render a single-child node"),
    }
}

#[test]
fn style_adds_insets_around_child() {
    let state = NullState;
    let styled = Style::new(
        Some(Rgb::new(1, 1, 1)),
        EdgeInsets::all(1),
        BorderDefinition::new(Rgb::new(2, 2, 2), EdgeInsets::all(2)),
        EdgeInsets::all(3),
        BoxElement::exactly(Size::new(10, 10), Rgb::new(0, 0, 0), None),
    );
    let (size, tree) = styled.render(Constraints::up_to(Size::new(100, 100)), &state);
    // margin 1+1, border 2+2, padding 3+3 on each axis around a 10x10 child.
    assert_eq!(size, Size::new(22, 22));
    match tree {
        RenderNode::SingleChild { offset, size, .. } => {
            assert_eq!(offset, Point::new(6, 6));
            assert_eq!(size, Size::new(10, 10));
        }
        _ => panic!("style should render a single-child node"),
    }
}

#[test]
fn list_selector_renders_selected_alternative() {
    let state = NullState;
    let selector = ListSelector::new(vec![Number::new(7), Number::new(8)], 1);
    let (size, tree) = selector.render(Constraints::up_to(Size::new(100, 100)), &state);
    assert_eq!(size, Size::new(50, 10));
    match tree {
        RenderNode::SingleChild { renderer, .. } => match &*renderer {
            ElementKind::Number(n) => assert_eq!(n.val, 8),
            _ => panic!("selected alternative should be the second number"),
        },
        _ => panic!("list selector should render its selected alternative"),
    }
    assert_eq!(selector.to_string(), "8");
}

#[test]
fn list_selector_with_stale_index_renders_nothing() {
    let state = NullState;
    let selector = ListSelector::new(vec![Number::new(7)], 5);
    let (size, tree) = selector.render(Constraints::up_to(Size::new(100, 100)), &state);
    assert_eq!(size, Size::new(0, 0));
    assert!(matches!(tree, RenderNode::Leaf));
    assert_eq!(selector.to_string(), "");
}

#[test]
fn rendering_twice_gives_equal_trees() {
    let state = AppState::default();
    let menu = main_menu(&state);
    let constraints = Constraints::up_to(Size::new(128, 128));
    let first = menu.render(constraints, &state);
    let second = menu.render(constraints, &state);
    assert_eq!(first.0, second.0);
    assert!(first.1 == second.1);
}
