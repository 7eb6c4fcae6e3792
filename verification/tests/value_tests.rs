use manrf::defs::Element;
use manrf::defs::State;
use manrf::elements::BorderDefinition;
use manrf::elements::Style;
use manrf::event::Event;
use manrf::graphics::GraphicOperation;
use manrf::graphics::GraphicOperationQueue;
use manrf::palette::palette_dream;
use manrf::utils::Constraints;
use manrf::utils::EdgeInsets;
use manrf::utils::Point;
use manrf::utils::Rectangle;
use manrf::utils::Rgb;
use manrf::utils::Size;
use manrf::BoxElement;
use manrf::ItemSelectorState;
use manrf::Number;
use manrf::Text;

struct NullState;

impl State for NullState {
    fn initial() -> Self {
        NullState
    }
    fn generate(&self, _id: u32) -> Element {
        Text::new(String::new())
    }
    fn run_handler(&mut self, _id: u32, _event: Event) -> bool {
        false
    }
    fn selector_len(&self, _id: u32) -> usize {
        0
    }
    fn selector_state(&self, _id: u32) -> ItemSelectorState {
        ItemSelectorState::default()
    }
    fn set_selector_state(&mut self, _id: u32, _st: ItemSelectorState) {}
    fn render_item(&self, _id: u32, _index: usize, _active: bool) -> Element {
        Text::new(String::new())
    }
}

#[test]
fn constraints_up_to_and_clamp() {
    let c = Constraints::up_to(Size::new(10, 20));
    assert_eq!(c.min, Size::new(0, 0));
    assert_eq!(c.max, Size::new(10, 20));
    assert_eq!(c.clamp(&Size::new(5, 30)), Size::new(5, 20));
    assert_eq!(c.clamp(&Size::new(15, 5)), Size::new(10, 5));
}

#[test]
fn constraints_clamp_is_idempotent() {
    let c = Constraints {
        min: Size::new(3, 8),
        max: Size::new(9, 12),
    };
    for w in [0u32, 3, 5, 9, 40] {
        for h in [0u32, 8, 10, 12, 40] {
            let once = c.clamp(&Size::new(w, h));
            assert_eq!(c.clamp(&once), once);
        }
    }
}

#[test]
fn constraints_shrink_saturates() {
    let c = Constraints {
        min: Size::new(u32::MAX - 1, 5),
        max: Size::new(u32::MAX, 100),
    };
    let shrunk = c.shrink(&Size::new(5, 10));
    assert_eq!(shrunk.min, Size::new(u32::MAX, 15));
    assert_eq!(shrunk.max, c.max);
}

#[test]
fn edge_insets_constructors() {
    assert_eq!(EdgeInsets::all(2), EdgeInsets::new(2, 2, 2, 2));
    assert_eq!(EdgeInsets::symmetric(1, 3), EdgeInsets::new(1, 3, 1, 3));
    assert_eq!(EdgeInsets::from_top(4), EdgeInsets::new(4, 0, 0, 0));
    assert_eq!(EdgeInsets::from_right(4), EdgeInsets::new(0, 4, 0, 0));
    assert_eq!(EdgeInsets::from_bottom(4), EdgeInsets::new(0, 0, 4, 0));
    assert_eq!(EdgeInsets::from_left(4), EdgeInsets::new(0, 0, 0, 4));
}

#[test]
fn edge_insets_extents() {
    let e = EdgeInsets::new(1, 2, 3, 4);
    assert_eq!(e.height(), 4);
    assert_eq!(e.width(), 6);
    assert_eq!(e.size(), Size::new(6, 4));
    assert!(!e.is_empty());
    assert!(EdgeInsets::all(0).is_empty());
    assert_eq!(e.top_left_offset(), Point::new(4, 1));
}

#[test]
fn numbers_render_decimal_strings() {
    assert_eq!(Number::new(0).to_string(), "0");
    assert_eq!(Number::new(42).to_string(), "42");
    assert_eq!(Number::new(-45).to_string(), "-45");
    assert_eq!(Number::new(i32::MAX).to_string(), "2147483647");
    assert_eq!(Number::new(i32::MIN).to_string(), "-2147483648");
}

#[test]
fn queue_drains_in_emission_order() {
    let mut queue = GraphicOperationQueue::new();
    queue.push(GraphicOperation::DrawText {
        position: Point::new(1, 2),
        text: "a".to_string(),
        color: Rgb::new(0, 0, 0),
    });
    queue.push(GraphicOperation::DrawRectangle {
        rect: Rectangle::new(Point::new(0, 0), Size::new(4, 4)),
        color: Rgb::new(1, 1, 1),
    });
    let ops = queue.drain();
    assert_eq!(ops.len(), 2);
    assert!(matches!(ops[0], GraphicOperation::DrawText { .. }));
    assert!(matches!(ops[1], GraphicOperation::DrawRectangle { .. }));
    let mut queue = queue;
    assert_eq!(queue.drain().len(), 0);
}

#[test]
fn box_paints_its_configured_rectangle() {
    let boxed = BoxElement::exactly(Size::new(8, 8), Rgb::new(9, 8, 7), None);
    let mut queue = GraphicOperationQueue::new();
    boxed.paint(Size::new(20, 20), Point::new(3, 4), &mut queue);
    let ops = queue.drain();
    assert_eq!(
        ops,
        vec![GraphicOperation::DrawRectangle {
            rect: Rectangle::new(Point::new(3, 4), Size::new(8, 8)),
            color: Rgb::new(9, 8, 7),
        }]
    );
}

#[test]
fn text_paints_white_glyphs() {
    let text = Text::new("Hi".to_string());
    let mut queue = GraphicOperationQueue::new();
    text.paint(Size::new(12, 10), Point::new(1, 1), &mut queue);
    let ops = queue.drain();
    assert_eq!(
        ops,
        vec![GraphicOperation::DrawText {
            position: Point::new(1, 1),
            text: "Hi".to_string(),
            color: Rgb::new(255, 255, 255),
        }]
    );
}

#[test]
fn style_paints_background_and_four_border_edges() {
    let background = Rgb::new(10, 20, 30);
    let border_color = Rgb::new(40, 50, 60);
    let styled = Style::new(
        Some(background),
        EdgeInsets::all(1),
        BorderDefinition::new(border_color, EdgeInsets::all(2)),
        EdgeInsets::all(3),
        Text::new("x".to_string()),
    );
    let mut queue = GraphicOperationQueue::new();
    styled.paint(Size::new(20, 30), Point::new(0, 0), &mut queue);
    let ops = queue.drain();
    assert_eq!(
        ops,
        vec![
            GraphicOperation::DrawRectangle {
                rect: Rectangle::new(Point::new(3, 3), Size::new(14, 24)),
                color: background,
            },
            GraphicOperation::DrawRectangle {
                rect: Rectangle::new(Point::new(1, 1), Size::new(2, 28)),
                color: border_color,
            },
            GraphicOperation::DrawRectangle {
                rect: Rectangle::new(Point::new(17, 1), Size::new(2, 28)),
                color: border_color,
            },
            GraphicOperation::DrawRectangle {
                rect: Rectangle::new(Point::new(1, 1), Size::new(18, 2)),
                color: border_color,
            },
            GraphicOperation::DrawRectangle {
                rect: Rectangle::new(Point::new(1, 27), Size::new(18, 2)),
                color: border_color,
            },
        ]
    );
}

#[test]
fn style_without_border_paints_background_only() {
    let styled = Style::new_with_background(Rgb::new(1, 2, 3), Text::new("x".to_string()));
    let mut queue = GraphicOperationQueue::new();
    styled.paint(Size::new(10, 10), Point::new(0, 0), &mut queue);
    let ops = queue.drain();
    assert_eq!(ops.len(), 1);
}

#[test]
fn structural_elements_paint_nothing() {
    let stack = manrf::Stack::col(vec![Text::new("a".to_string())]);
    let mut queue = GraphicOperationQueue::new();
    stack.paint(Size::new(10, 10), Point::new(0, 0), &mut queue);
    assert_eq!(queue.drain().len(), 0);
}

#[test]
fn dream_palette_values() {
    let p = palette_dream();
    assert_eq!(p.darkest, Rgb::new(63, 13, 104));
    assert_eq!(p.dark, Rgb::new(244, 28, 125));
    assert_eq!(p.light, Rgb::new(50, 217, 206));
    assert_eq!(p.lightest, Rgb::new(255, 236, 141));
}

#[test]
fn text_width_respects_tight_max() {
    let state = NullState;
    let text = Text::new("This is some Text".to_string());
    let (size, _) = text.render(Constraints::up_to(Size::new(60, 60)), &state);
    assert_eq!(size, Size::new(60, 10));
}
