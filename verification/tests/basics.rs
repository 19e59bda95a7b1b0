use druid_bindings::{
    Accessor, Command, CommandCtx, Data, EventCtx, Identity, LayoutCtx, LifeCycleCtx, Requests,
    Selector, Then, UpdateCtx, WidgetId,
};

#[derive(Clone, Copy, Debug, PartialEq)]
struct Inner {
    a: u8,
    b: u8,
}

#[derive(Clone, Copy, Debug, PartialEq)]
struct Outer {
    inner: Inner,
    c: u8,
}

impl Data for Outer {
    fn same_spec(self, other: Self) -> bool {
        self == other
    }

    fn same(&self, other: &Self) -> bool {
        self == other
    }

    fn duplicate(&self) -> Self {
        *self
    }
}

struct InnerOf;

impl Accessor<Outer, Inner> for InnerOf {
    fn get_spec(&self, owner: Outer) -> Inner {
        owner.inner
    }

    fn put_spec(&self, owner: Outer, value: Inner) -> Outer {
        Outer { inner: value, ..owner }
    }

    fn get(&self, owner: &Outer) -> Inner {
        owner.inner
    }

    fn put(&self, owner: &mut Outer, value: Inner) {
        owner.inner = value;
    }
}

struct BOf;

impl Accessor<Inner, u8> for BOf {
    fn get_spec(&self, owner: Inner) -> u8 {
        owner.b
    }

    fn put_spec(&self, owner: Inner, value: u8) -> Inner {
        Inner { b: value, ..owner }
    }

    fn get(&self, owner: &Inner) -> u8 {
        owner.b
    }

    fn put(&self, owner: &mut Inner, value: u8) {
        owner.b = value;
    }
}

#[test]
fn selectors_have_their_names() {
    assert_eq!(Selector::InitBindings.name(), "druid-builtin.init-bindings");
    assert_eq!(Selector::ApplyBindings.name(), "druid-builtin.apply-bindings");
    assert_ne!(Selector::InitBindings, Selector::ApplyBindings);
}

#[test]
fn a_selector_is_addressed_to_a_node() {
    let cmd = Selector::ApplyBindings.to(WidgetId(3));
    assert_eq!(cmd, Command { selector: Selector::ApplyBindings, target: WidgetId(3) });
    assert_ne!(cmd, Selector::ApplyBindings.to(WidgetId(4)));
    assert_ne!(cmd, Selector::InitBindings.to(WidgetId(3)));
}

#[test]
fn an_event_context_starts_empty() {
    let mut ctx = EventCtx::new(WidgetId(5));
    assert_eq!(ctx.widget_id(), WidgetId(5));
    assert!(!ctx.is_handled);
    assert!(!ctx.update_requested);
    assert!(ctx.commands.is_empty());

    ctx.set_handled();
    assert!(ctx.is_handled);
    assert!(!ctx.update_requested);
    ctx.request_update();
    assert!(ctx.is_handled);
    assert!(ctx.update_requested);
    assert!(ctx.commands.is_empty());
    assert_eq!(ctx.widget_id, WidgetId(5));
}

#[test]
fn commands_are_queued_in_order() {
    let first = Selector::InitBindings.to(WidgetId(1));
    let second = Selector::ApplyBindings.to(WidgetId(2));

    let mut ctx = EventCtx::new(WidgetId(5));
    ctx.submit_command(first);
    ctx.submit_command(second);
    assert_eq!(ctx.commands, vec![first, second]);
    assert!(!ctx.is_handled);

    let mut ctx = LifeCycleCtx::new(WidgetId(6));
    assert_eq!(ctx.widget_id(), WidgetId(6));
    ctx.submit_command(second);
    ctx.submit_command(first);
    assert_eq!(ctx.commands, vec![second, first]);

    let mut ctx = LayoutCtx::new(WidgetId(7));
    assert_eq!(ctx.widget_id(), WidgetId(7));
    ctx.submit_command(first);
    assert_eq!(ctx.commands, vec![first]);

    let mut ctx = UpdateCtx::new(WidgetId(8));
    assert_eq!(ctx.widget_id(), WidgetId(8));
    ctx.request_layout();
    ctx.submit_command(first);
    ctx.submit_command(first);
    assert_eq!(ctx.commands, vec![first, first]);
    assert_eq!(ctx.requests, Requests { layout: true, paint: false, anim_frame: false });
}

#[test]
fn invalidations_add_up() {
    let mut ctx = UpdateCtx::new(WidgetId(8));
    assert_eq!(ctx.requests, Requests { layout: false, paint: false, anim_frame: false });
    ctx.request_paint();
    assert_eq!(ctx.requests, Requests { layout: false, paint: true, anim_frame: false });
    ctx.request_anim_frame();
    assert_eq!(ctx.requests, Requests { layout: false, paint: true, anim_frame: true });
    ctx.request_paint();
    ctx.request_layout();
    assert_eq!(ctx.requests, Requests { layout: true, paint: true, anim_frame: true });
    assert!(ctx.commands.is_empty());
}

#[test]
fn plain_values_are_the_same_when_equal() {
    assert!(5u64.same(&5));
    assert!(!5u64.same(&6));
    assert!(true.same(&true));
    assert!(!true.same(&false));
    assert!((-3i32).same(&-3));
    assert!(!(-3i32).same(&3));
    assert!('a'.same(&'a'));
    assert!(!'a'.same(&'b'));
    assert!(usize::MAX.same(&usize::MAX));
    assert!(!0u8.same(&255));
    assert!(().same(&()));
    assert!(i128::MIN.same(&i128::MIN));
    assert!(!u128::MAX.same(&0));
}

#[test]
fn plain_values_are_copied_exactly() {
    assert_eq!(5u64.duplicate(), 5);
    assert_eq!(u64::MAX.duplicate(), u64::MAX);
    assert_eq!(false.duplicate(), false);
    assert_eq!((-7i64).duplicate(), -7);
    assert_eq!(i8::MIN.duplicate(), i8::MIN);
    assert_eq!(1u16.duplicate(), 1);
    assert_eq!(2u32.duplicate(), 2);
    assert_eq!(3i16.duplicate(), 3);
    assert_eq!(4isize.duplicate(), 4);
    assert_eq!('z'.duplicate(), 'z');
}

#[test]
fn the_identity_accessor_reaches_the_owner_itself() {
    let mut owner = 17u32;
    assert_eq!(Identity.get(&owner), 17);
    Identity.put(&mut owner, 4);
    assert_eq!(owner, 4);
    assert_eq!(Identity.get(&owner), 4);
}

#[test]
fn accessors_chain_end_to_end() {
    let chain = Then::new(InnerOf, BOf);
    let mut owner = Outer { inner: Inner { a: 1, b: 2 }, c: 3 };
    assert_eq!(chain.get(&owner), 2);
    chain.put(&mut owner, 9);
    assert_eq!(owner, Outer { inner: Inner { a: 1, b: 9 }, c: 3 });
    assert_eq!(chain.get(&owner), 9);

    let through = Then::new(Identity, Then::new(InnerOf, BOf));
    through.put(&mut owner, 10);
    assert_eq!(owner, Outer { inner: Inner { a: 1, b: 10 }, c: 3 });
    assert_eq!(through.get(&owner), 10);
}
