use gui::controls::{Button, Control, HStack, InputText, VStack};
use gui::margins::{DimensionBuilder, Margin, MarginBuilder, Padding, PaddingBuilder};
use gui::screen::{ControlKind, LayoutError, Placement, Screen};

fn at(p: &Placement) -> (ControlKind, &str, i32, i32, i32, i32) {
    (p.kind, p.text.as_str(), p.x, p.y, p.width, p.height)
}

#[test]
fn builders_keep_other_sides() {
    let b = Button::new("OK").left_margin(3).top_margin(4).horizontal_margin(7).bottom_margin(1);
    assert_eq!(b.margin, Margin { right: 7, left: 7, top: 4, bottom: 1 });
    let b = b.vertical_margin(2).right_margin(9);
    assert_eq!(b.margin, Margin { right: 9, left: 7, top: 2, bottom: 2 });
    let b = b.width(80).height(25);
    assert_eq!((b.dimension.width, b.dimension.height), (80, 25));
    assert_eq!(b.title, "OK");

    let v = VStack::new().left_padding(1).right_padding(2).top_padding(3).bottom_padding(4);
    assert_eq!(v.padding, Padding { right: 2, left: 1, top: 3, bottom: 4 });
    let v = v.vertical_padding(5).horizontal_padding(6).spacing(10);
    assert_eq!(v.padding, Padding { right: 6, left: 6, top: 5, bottom: 5 });
    assert_eq!(v.spacing, 10);
    let h = HStack::new().spacing(3).items(vec![Control::Empty]);
    assert_eq!(h.items.len(), 1);
    assert_eq!(InputText::new("name").text, "name");
}

#[test]
fn vertical_stack_layout() {
    let root = VStack::new()
        .spacing(5)
        .vertical_padding(10)
        .horizontal_padding(20)
        .items(vec![
            InputText::new("name").width(100).height(20).done(),
            Button::new("OK").width(50).height(30).left_margin(4).right_margin(6).done(),
        ])
        .done();
    let mut screen = Screen::new(1, 2);
    let placed = screen.render(root).unwrap();
    assert_eq!(placed.len(), 2);
    assert_eq!(at(&placed[0]), (ControlKind::InputText, "name", 20, 10, 100, 20));
    // later items are measured from the stack's corner: the top padding counts once
    assert_eq!(at(&placed[1]), (ControlKind::Button, "OK", 24, 25, 50, 30));
    assert_eq!((screen.h_instance(), screen.h_window()), (1, 2));
}

#[test]
fn horizontal_stack_layout() {
    let root = HStack::new()
        .spacing(8)
        .left_padding(5)
        .top_padding(6)
        .items(vec![
            Button::new("A").width(40).height(20).done(),
            Control::Empty,
            Button::new("B").width(30).height(10).top_margin(2).done(),
        ])
        .done();
    let mut screen = Screen::new(0, 0);
    let placed = screen.render(root).unwrap();
    assert_eq!(placed.len(), 2);
    assert_eq!(at(&placed[0]), (ControlKind::Button, "A", 5, 6, 40, 20));
    assert_eq!(at(&placed[1]), (ControlKind::Button, "B", 56, 8, 30, 10));
}

#[test]
fn nested_stacks_layout() {
    let root = VStack::new()
        .spacing(2)
        .items(vec![
            HStack::new()
                .spacing(1)
                .items(vec![
                    Button::new("x").width(10).height(10).done(),
                    Button::new("y").width(10).height(15).done(),
                ])
                .done(),
            InputText::new("z").width(5).height(5).done(),
        ])
        .done();
    let mut screen = Screen::new(0, 0);
    let placed = screen.render(root).unwrap();
    assert_eq!(at(&placed[0]), (ControlKind::Button, "x", 0, 0, 10, 10));
    assert_eq!(at(&placed[1]), (ControlKind::Button, "y", 11, 0, 10, 15));
    assert_eq!(at(&placed[2]), (ControlKind::InputText, "z", 0, 17, 5, 5));
}

#[test]
fn empty_tree_places_nothing() {
    let mut screen = Screen::new(0, 0);
    assert_eq!(screen.render(Control::Empty).unwrap().len(), 0);
    assert_eq!(screen.render(VStack::new().done()).unwrap().len(), 0);
}

#[test]
fn overflow_is_refused() {
    let mut screen = Screen::new(0, 0);
    let root = Button::new("wide").width(i32::MAX).right_margin(1).done();
    assert_eq!(screen.render(root).unwrap_err(), LayoutError::Overflow);
    let root = VStack::new()
        .spacing(i32::MAX)
        .items(vec![Button::new("a").height(1).done()])
        .done();
    assert_eq!(screen.render(root).unwrap_err(), LayoutError::Overflow);
    let root = VStack::new()
        .top_padding(7)
        .items(vec![Button::new("c").height(i32::MAX).done(), Button::new("d").done()])
        .done();
    assert_eq!(screen.render(root).unwrap_err(), LayoutError::Overflow);
    // a refused layout leaves the origin where it was
    let ok = screen.render(Button::new("b").width(3).height(4).done()).unwrap();
    assert_eq!(at(&ok[0]), (ControlKind::Button, "b", 0, 0, 3, 4));
}
