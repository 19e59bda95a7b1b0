use druid_bindings::{
    Accessor, AnimFrame, BackwardOnly, Binding, BindingExt, ContextRequests, Data, ForwardOnly,
    Layout, LensPropBinding, Paint, Property,
    PropertyExt, PropertyWrapper, ReadOnlyProperty, Ref, RefProperty, Requests, UpdateCtx, Value,
    ValueProperty, WidgetId, WriteOnlyProperty, Writing, WritingProperty,
};
use std::cell::RefCell;
use std::rc::Rc;

/// A label, with a text that it may not have yet.
#[derive(Clone, Debug, PartialEq)]
struct Label {
    size: u32,
    text: Option<Text>,
    colour: u8,
}

/// A text that is compared by what it holds.
#[derive(Clone, Debug, PartialEq)]
struct Text(String);

impl Data for Text {
    fn same_spec(self, other: Self) -> bool {
        self == other
    }

    fn same(&self, other: &Self) -> bool {
        self == other
    }

    fn duplicate(&self) -> Self {
        self.clone()
    }
}

#[derive(Clone, Debug, PartialEq)]
struct Form {
    size: u32,
    title: Text,
    colour: u8,
}

struct SizeField;

impl Accessor<Form, u32> for SizeField {
    fn get_spec(&self, owner: Form) -> u32 {
        owner.size
    }

    fn put_spec(&self, owner: Form, value: u32) -> Form {
        Form { size: value, ..owner }
    }

    fn get(&self, owner: &Form) -> u32 {
        owner.size
    }

    fn put(&self, owner: &mut Form, value: u32) {
        owner.size = value;
    }
}

struct TitleField;

impl Accessor<Form, Text> for TitleField {
    fn get_spec(&self, owner: Form) -> Text {
        owner.title
    }

    fn put_spec(&self, owner: Form, value: Text) -> Form {
        Form { title: value, ..owner }
    }

    fn get(&self, owner: &Form) -> Text {
        owner.title.clone()
    }

    fn put(&self, owner: &mut Form, value: Text) {
        owner.title = value;
    }
}

struct ColourField;

impl Accessor<Form, u8> for ColourField {
    fn get_spec(&self, owner: Form) -> u8 {
        owner.colour
    }

    fn put_spec(&self, owner: Form, value: u8) -> Form {
        Form { colour: value, ..owner }
    }

    fn get(&self, owner: &Form) -> u8 {
        owner.colour
    }

    fn put(&self, owner: &mut Form, value: u8) {
        owner.colour = value;
    }
}

/// What was done, in the order in which it was done.
type Log = Rc<RefCell<Vec<&'static str>>>;

fn log() -> Log {
    Rc::new(RefCell::new(Vec::new()))
}

struct Size {
    log: Log,
}

impl ValueProperty for Size {
    type Controlled = Label;
    type Value = u32;
    type Requests = Layout;

    fn written(&self, controlled: Label, value: u32) -> Label {
        Label { size: value, ..controlled }
    }

    fn value_of(&self, controlled: Label) -> u32 {
        controlled.size
    }

    fn write(&self, controlled: &mut Label, value: &u32) {
        self.log.borrow_mut().push("write size");
        controlled.size = *value;
    }

    fn read(&self, controlled: &Label) -> u32 {
        self.log.borrow_mut().push("read size");
        controlled.size
    }
}

struct TextOf {
    log: Log,
}

impl RefProperty for TextOf {
    type Controlled = Label;
    type Value = Text;
    type Requests = (Layout, Paint);

    fn written(&self, controlled: Label, value: Text) -> Label {
        Label { text: Some(value), ..controlled }
    }

    fn value_of(&self, controlled: Label) -> Option<Text> {
        controlled.text
    }

    fn write(&self, controlled: &mut Label, value: &Text) {
        self.log.borrow_mut().push("write text");
        controlled.text = Some(value.clone());
    }

    fn read<'a>(&self, controlled: &'a Label) -> Option<&'a Text> {
        self.log.borrow_mut().push("read text");
        controlled.text.as_ref()
    }
}

struct Colour {
    log: Log,
}

impl WritingProperty for Colour {
    type Controlled = Label;
    type Value = u8;
    type Requests = (Paint, AnimFrame);

    fn written(&self, controlled: Label, value: u8) -> Label {
        Label { colour: value, ..controlled }
    }

    fn write(&self, controlled: &mut Label, value: &u8) {
        self.log.borrow_mut().push("write colour");
        controlled.colour = *value;
    }
}

fn label() -> Label {
    Label { size: 10, text: None, colour: 1 }
}

fn form() -> Form {
    Form { size: 12, title: Text("hello".to_string()), colour: 7 }
}

fn ctx() -> UpdateCtx {
    UpdateCtx::new(WidgetId(1))
}

fn asked(layout: bool, paint: bool, anim_frame: bool) -> Requests {
    Requests { layout, paint, anim_frame }
}

#[test]
fn a_value_property_is_written_and_read_as_a_whole() {
    let log = log();
    let size = PropertyWrapper::<Value, _>::new(Size { log: log.clone() });
    let mut node = label();

    size.write_prop(&mut node, &14);
    assert_eq!(node, Label { size: 14, text: None, colour: 1 });

    // In step: the slot is left as it is, whatever it holds.
    let mut change = None;
    size.append_changes(&node, &14, &mut change);
    assert_eq!(change, None);
    let mut change = Some(());
    size.append_changes(&node, &14, &mut change);
    assert_eq!(change, Some(()));

    // Out of step.
    let mut change = None;
    size.append_changes(&node, &15, &mut change);
    assert_eq!(change, Some(()));

    let mut field = 15;
    size.update_data_from_change(&node, &mut field, ());
    assert_eq!(field, 14);
    let mut field = 3;
    size.initialise_data(&node, &mut field);
    assert_eq!(field, 14);
    assert_eq!(node.size, 14);
}

#[test]
fn a_ref_property_may_have_nothing_to_report() {
    let log = log();
    let text = PropertyWrapper::<Ref, _>::new(TextOf { log: log.clone() });
    let mut node = label();
    let hello = Text("hello".to_string());
    let world = Text("world".to_string());

    // The node holds no text: no change, and the field stays.
    let mut change = None;
    text.append_changes(&node, &hello, &mut change);
    assert_eq!(change, None);
    let mut field = hello.clone();
    text.initialise_data(&node, &mut field);
    assert_eq!(field, hello);
    text.update_data_from_change(&node, &mut field, ());
    assert_eq!(field, hello);

    text.write_prop(&mut node, &world);
    assert_eq!(node.text, Some(world.clone()));

    let mut change = None;
    text.append_changes(&node, &world, &mut change);
    assert_eq!(change, None);
    text.append_changes(&node, &hello, &mut change);
    assert_eq!(change, Some(()));

    let mut field = hello.clone();
    text.update_data_from_change(&node, &mut field, ());
    assert_eq!(field, world);
    let mut field = hello;
    text.initialise_data(&node, &mut field);
    assert_eq!(field, world);
}

#[test]
fn a_writing_property_only_writes() {
    let log = log();
    let colour = PropertyWrapper::<Writing, _>::new(Colour { log: log.clone() });
    let mut node = label();
    colour.write_prop(&mut node, &9);
    assert_eq!(node.colour, 9);

    let mut change = None;
    colour.append_changes(&node, &3, &mut change);
    assert_eq!(change, None);
    let mut field = 3;
    colour.update_data_from_change(&node, &mut field, ());
    assert_eq!(field, 3);
    colour.initialise_data(&node, &mut field);
    assert_eq!(field, 3);
    assert_eq!(*log.borrow(), vec!["write colour"]);
}

#[test]
fn a_read_only_property_is_never_written() {
    let log = log();
    let size: ReadOnlyProperty<_> = PropertyWrapper::<Value, _>::new(Size { log: log.clone() }).read();
    let mut node = label();
    size.write_prop(&mut node, &14);
    assert_eq!(node, label());
    assert!(log.borrow().is_empty());

    let mut change = None;
    size.append_changes(&node, &14, &mut change);
    assert_eq!(change, Some(()));
    let mut field = 14;
    size.update_data_from_change(&node, &mut field, ());
    assert_eq!(field, 10);
    let mut field = 0;
    size.initialise_data(&node, &mut field);
    assert_eq!(field, 10);
}

#[test]
fn a_write_only_property_never_reports() {
    let log = log();
    let size: WriteOnlyProperty<_> =
        PropertyWrapper::<Value, _>::new(Size { log: log.clone() }).write();
    let mut node = label();
    size.write_prop(&mut node, &14);
    assert_eq!(node.size, 14);

    let mut change = None;
    size.append_changes(&node, &99, &mut change);
    assert_eq!(change, None);
    let mut field = 99;
    size.update_data_from_change(&node, &mut field, ());
    assert_eq!(field, 99);
    size.initialise_data(&node, &mut field);
    assert_eq!(field, 99);
    assert_eq!(*log.borrow(), vec!["write size"]);
}

#[test]
fn a_field_is_bound_to_a_property() {
    let log = log();
    let binding = PropertyWrapper::<Value, _>::new(Size { log: log.clone() }).with(SizeField);
    let mut node = label();
    let mut data = form();
    let mut ctx = ctx();

    binding.apply_data_to_controlled(&data, &mut node, &mut ctx);
    assert_eq!(node.size, 12);
    assert_eq!(ctx.requests, asked(true, false, false));

    let mut change = None;
    binding.append_change_required(&node, &data, &mut change);
    assert_eq!(change, None);

    node.size = 30;
    binding.append_change_required(&node, &data, &mut change);
    assert_eq!(change, Some(()));
    binding.apply_change_to_data(&node, &mut data, ());
    assert_eq!(data, Form { size: 30, ..form() });

    node.size = 31;
    binding.initialise_data(&node, &mut data);
    assert_eq!(data, Form { size: 31, ..form() });
}

#[test]
fn a_binding_asks_for_what_its_property_names() {
    let log = log();
    let mut node = label();
    let data = form();

    let text = LensPropBinding::new(TitleField, PropertyWrapper::<Ref, _>::new(TextOf { log: log.clone() }));
    let mut update = ctx();
    text.apply_data_to_controlled(&data, &mut node, &mut update);
    assert_eq!(update.requests, asked(true, true, false));

    let colour =
        LensPropBinding::new(ColourField, PropertyWrapper::<Writing, _>::new(Colour { log: log.clone() }));
    let mut update = ctx();
    colour.apply_data_to_controlled(&data, &mut node, &mut update);
    assert_eq!(update.requests, asked(false, true, true));
    assert_eq!(node, Label { size: 10, text: Some(Text("hello".to_string())), colour: 7 });

    // What was asked for before stays asked for.
    colour.apply_data_to_controlled(&data, &mut node, &mut update);
    text.apply_data_to_controlled(&data, &mut node, &mut update);
    assert_eq!(update.requests, asked(true, true, true));
    assert!(update.commands.is_empty());
    assert_eq!(update.widget_id, WidgetId(1));
}

#[test]
fn a_pair_applies_both_bindings_in_order() {
    let log = log();
    let pair = (
        PropertyWrapper::<Value, _>::new(Size { log: log.clone() }).with(SizeField),
        PropertyWrapper::<Writing, _>::new(Colour { log: log.clone() }).with(ColourField),
    );
    let mut node = label();
    let mut update = ctx();
    pair.apply_data_to_controlled(&form(), &mut node, &mut update);
    assert_eq!(node, Label { size: 12, text: None, colour: 7 });
    assert_eq!(*log.borrow(), vec!["write size", "write colour"]);
    assert_eq!(update.requests, asked(true, true, true));
}

#[test]
fn a_pair_looks_at_both_bindings_in_order() {
    let log = log();
    let pair = (
        PropertyWrapper::<Ref, _>::new(TextOf { log: log.clone() }).with(TitleField),
        PropertyWrapper::<Value, _>::new(Size { log: log.clone() }).with(SizeField),
    );
    let data = form();

    // Neither moved: no change at all, not a pair of empty halves.
    let node = Label { size: 12, text: Some(Text("hello".to_string())), colour: 0 };
    let mut change = None;
    pair.append_change_required(&node, &data, &mut change);
    assert_eq!(change, None);
    assert_eq!(*log.borrow(), vec!["read text", "read size"]);

    // Only the second moved.
    let node = Label { size: 13, text: Some(Text("hello".to_string())), colour: 0 };
    pair.append_change_required(&node, &data, &mut change);
    assert_eq!(change, Some((None, Some(()))));

    // Then the first moves too: its half is added to what is held.
    let node = Label { size: 12, text: Some(Text("bye".to_string())), colour: 0 };
    pair.append_change_required(&node, &data, &mut change);
    assert_eq!(change, Some((Some(()), Some(()))));

    // Only the first moved.
    let mut change = None;
    pair.append_change_required(&node, &data, &mut change);
    assert_eq!(change, Some((Some(()), None)));
}

#[test]
fn a_pair_applies_each_half_that_is_there() {
    let log = log();
    let pair = (
        PropertyWrapper::<Ref, _>::new(TextOf { log: log.clone() }).with(TitleField),
        PropertyWrapper::<Value, _>::new(Size { log: log.clone() }).with(SizeField),
    );
    let node = Label { size: 13, text: Some(Text("bye".to_string())), colour: 0 };

    let mut data = form();
    pair.apply_change_to_data(&node, &mut data, (None, None));
    assert_eq!(data, form());
    assert!(log.borrow().is_empty());

    pair.apply_change_to_data(&node, &mut data, (Some(()), None));
    assert_eq!(data, Form { title: Text("bye".to_string()), ..form() });
    assert_eq!(*log.borrow(), vec!["read text"]);

    let mut data = form();
    pair.apply_change_to_data(&node, &mut data, (None, Some(())));
    assert_eq!(data, Form { size: 13, ..form() });

    log.borrow_mut().clear();
    let mut data = form();
    pair.apply_change_to_data(&node, &mut data, (Some(()), Some(())));
    assert_eq!(data, Form { size: 13, title: Text("bye".to_string()), colour: 7 });
    assert_eq!(*log.borrow(), vec!["read text", "read size"]);

    log.borrow_mut().clear();
    let mut data = form();
    pair.initialise_data(&node, &mut data);
    assert_eq!(data, Form { size: 13, title: Text("bye".to_string()), colour: 7 });
    assert_eq!(*log.borrow(), vec!["read text", "read size"]);
}

#[test]
fn pairs_nest() {
    let log = log();
    let nested = (
        PropertyWrapper::<Value, _>::new(Size { log: log.clone() }).with(SizeField),
        (
            PropertyWrapper::<Ref, _>::new(TextOf { log: log.clone() }).with(TitleField),
            PropertyWrapper::<Writing, _>::new(Colour { log: log.clone() }).with(ColourField),
        ),
    );
    let mut node = label();
    let mut data = form();
    let mut update = ctx();
    nested.apply_data_to_controlled(&data, &mut node, &mut update);
    assert_eq!(node, Label { size: 12, text: Some(Text("hello".to_string())), colour: 7 });
    assert_eq!(*log.borrow(), vec!["write size", "write text", "write colour"]);

    let mut change = None;
    nested.append_change_required(&node, &data, &mut change);
    assert_eq!(change, None);

    node.text = Some(Text("bye".to_string()));
    node.colour = 0;
    nested.append_change_required(&node, &data, &mut change);
    assert_eq!(change, Some((None, Some((Some(()), None)))));
    nested.apply_change_to_data(&node, &mut data, change.unwrap());
    assert_eq!(data, Form { size: 12, title: Text("bye".to_string()), colour: 7 });
}

#[test]
fn markers_ask_for_their_invalidations() {
    let mut update = ctx();
    <() as ContextRequests>::notify(&mut update);
    assert_eq!(update.requests, asked(false, false, false));
    update.request_paint();
    <() as ContextRequests>::notify(&mut update);
    assert_eq!(update.requests, asked(false, true, false));
    <((), Layout)>::notify(&mut update);
    assert_eq!(update.requests, asked(true, true, false));

    let mut update = ctx();
    Layout::notify(&mut update);
    assert_eq!(update.requests, asked(true, false, false));

    let mut update = ctx();
    Paint::notify(&mut update);
    assert_eq!(update.requests, asked(false, true, false));

    let mut update = ctx();
    AnimFrame::notify(&mut update);
    assert_eq!(update.requests, asked(false, false, true));

    let mut update = ctx();
    <(Paint, AnimFrame)>::notify(&mut update);
    assert_eq!(update.requests, asked(false, true, true));

    let mut update = ctx();
    <(Layout, Paint, AnimFrame)>::notify(&mut update);
    assert_eq!(update.requests, asked(true, true, true));

    let mut grouped_left = ctx();
    <((Layout, Paint), Paint)>::notify(&mut grouped_left);
    let mut grouped_right = ctx();
    <(Layout, (Paint, Paint))>::notify(&mut grouped_right);
    assert_eq!(grouped_left.requests, grouped_right.requests);
    assert_eq!(grouped_left.requests, asked(true, true, false));
}

#[test]
fn a_forward_only_binding_writes_and_never_reports() {
    let log = log();
    let binding: ForwardOnly<_> =
        PropertyWrapper::<Value, _>::new(Size { log: log.clone() }).with(SizeField).forward();
    let mut node = label();
    let mut data = form();
    let mut update = ctx();
    binding.apply_data_to_controlled(&data, &mut node, &mut update);
    assert_eq!(node.size, 12);
    assert_eq!(update.requests, asked(true, false, false));

    node.size = 99;
    let mut change = None;
    binding.append_change_required(&node, &data, &mut change);
    assert_eq!(change, None);
    let mut change = Some(());
    binding.append_change_required(&node, &data, &mut change);
    assert_eq!(change, Some(()));
    binding.apply_change_to_data(&node, &mut data, ());
    assert_eq!(data, form());
    binding.initialise_data(&node, &mut data);
    assert_eq!(data, form());
    assert_eq!(*log.borrow(), vec!["write size"]);
}

#[test]
fn a_backward_only_binding_reports_and_never_writes() {
    let log = log();
    let binding: BackwardOnly<_> =
        PropertyWrapper::<Value, _>::new(Size { log: log.clone() }).with(SizeField).backward();
    let mut node = label();
    let mut data = form();
    let mut update = ctx();
    binding.apply_data_to_controlled(&data, &mut node, &mut update);
    assert_eq!(node, label());
    assert_eq!(update.requests, asked(false, false, false));
    assert!(log.borrow().is_empty());

    let mut change = None;
    binding.append_change_required(&node, &data, &mut change);
    assert_eq!(change, Some(()));
    binding.apply_change_to_data(&node, &mut data, ());
    assert_eq!(data, Form { size: 10, ..form() });
    node.size = 11;
    binding.initialise_data(&node, &mut data);
    assert_eq!(data, Form { size: 11, ..form() });
}

#[test]
fn a_restricted_binding_can_stand_in_a_pair() {
    let log = log();
    let pair = (
        PropertyWrapper::<Value, _>::new(Size { log: log.clone() }).with(SizeField).forward(),
        PropertyWrapper::<Ref, _>::new(TextOf { log: log.clone() }).with(TitleField).backward(),
    );
    let mut node = Label { size: 1, text: Some(Text("bye".to_string())), colour: 0 };
    let mut data = form();
    let mut update = ctx();
    pair.apply_data_to_controlled(&data, &mut node, &mut update);
    assert_eq!(node, Label { size: 12, text: Some(Text("bye".to_string())), colour: 0 });

    node.size = 40;
    let mut change = None;
    pair.append_change_required(&node, &data, &mut change);
    assert_eq!(change, Some((None, Some(()))));
    pair.apply_change_to_data(&node, &mut data, change.unwrap());
    assert_eq!(data, Form { title: Text("bye".to_string()), ..form() });
}
