use std::any::{Any, TypeId};
use std::rc::Rc;
use std::sync::Arc;
use trait_cast::cast_fns::{
    trait_cross_cast_arc, trait_cross_cast_box, trait_cross_cast_rc, trait_cross_cast_ref,
    trait_cross_cast_with, CastErrorWith, Castable,
};
use trait_cast::handy_functions::{comptime_str_eq, is_trait_object_layout};
use trait_cast::identity::TypeIdentity;
use trait_cast::trait_registry::{
    get_vtable, CastError, RegistererHelper, TraitVTableRegistry, TypeVTableMapper,
};

trait Base: Castable + Any {
    fn name(&self) -> &'static str;
}

trait Edible: Base {
    fn favorite_food(&self) -> &'static str;
}

trait Mystery: Castable + Any {
    fn secret(&self) -> u32;
}

struct Widget;

impl Castable for Widget {
    fn identity(&self) -> TypeIdentity {
        TypeIdentity::of::<Widget>("Widget")
    }

    fn type_identity(&self) -> TypeIdentity {
        self.identity()
    }
}

impl Base for Widget {
    fn name(&self) -> &'static str {
        "Widget"
    }
}

impl Edible for Widget {
    fn favorite_food(&self) -> &'static str {
        "Chicken"
    }
}

impl Mystery for Widget {
    fn secret(&self) -> u32 {
        42
    }
}

struct PlainBase;

impl Castable for PlainBase {
    fn identity(&self) -> TypeIdentity {
        TypeIdentity::of::<PlainBase>("PlainBase")
    }

    fn type_identity(&self) -> TypeIdentity {
        self.identity()
    }
}

impl Base for PlainBase {
    fn name(&self) -> &'static str {
        "PlainBase"
    }
}

struct Stranger;

impl Castable for Stranger {
    fn identity(&self) -> TypeIdentity {
        TypeIdentity::of::<Stranger>("Stranger")
    }

    fn type_identity(&self) -> TypeIdentity {
        self.identity()
    }
}

impl Base for Stranger {
    fn name(&self) -> &'static str {
        "Stranger"
    }
}

#[derive(Clone, Copy)]
enum Table {
    Base(for<'x> fn(&'x (dyn Any + 'static)) -> Option<&'x (dyn Base + 'static)>),
    Edible(for<'x> fn(&'x (dyn Any + 'static)) -> Option<&'x (dyn Edible + 'static)>),
    Mystery(for<'x> fn(&'x (dyn Any + 'static)) -> Option<&'x (dyn Mystery + 'static)>),
}

fn base_view<'x, T: Base>(x: &'x (dyn Any + 'static)) -> Option<&'x (dyn Base + 'static)> {
    x.downcast_ref::<T>().map(|t| t as &(dyn Base + 'static))
}

fn edible_view<'x, T: Edible>(x: &'x (dyn Any + 'static)) -> Option<&'x (dyn Edible + 'static)> {
    x.downcast_ref::<T>().map(|t| t as &(dyn Edible + 'static))
}

fn base_id() -> TypeIdentity {
    TypeIdentity::of::<dyn Base>("Base")
}

fn edible_id() -> TypeIdentity {
    TypeIdentity::of::<dyn Edible>("Edible")
}

fn mystery_id() -> TypeIdentity {
    TypeIdentity::of::<dyn Mystery>("Mystery")
}

fn to_edible<'a>(from: &'a (dyn Base + 'static), table: Table) -> &'a (dyn Edible + 'static) {
    let any: &(dyn Any + 'static) = from;
    match table {
        Table::Edible(view) => view(any).expect("table of another type"),
        _ => panic!("table of another interface"),
    }
}

fn to_base<'a>(from: &'a (dyn Edible + 'static), table: Table) -> &'a (dyn Base + 'static) {
    let any: &(dyn Any + 'static) = from;
    match table {
        Table::Base(view) => view(any).expect("table of another type"),
        _ => panic!("table of another interface"),
    }
}

fn to_mystery<'a>(from: &'a (dyn Base + 'static), table: Table) -> &'a (dyn Mystery + 'static) {
    let any: &(dyn Any + 'static) = from;
    match table {
        Table::Mystery(view) => view(any).expect("table of another type"),
        _ => panic!("table of another interface"),
    }
}

fn registry() -> TraitVTableRegistry<Table> {
    let mut registry = TraitVTableRegistry::new();
    let mut widget = RegistererHelper::new();
    widget.register_trait_vtables(base_id().id, Some(Table::Base(base_view::<Widget>)));
    widget.register_trait_vtables(edible_id().id, Some(Table::Edible(edible_view::<Widget>)));
    registry.register_type(TypeId::of::<Widget>(), &widget);
    let mut plain = RegistererHelper::new();
    plain.register_trait_vtables(base_id().id, Some(Table::Base(base_view::<PlainBase>)));
    registry.register_type(TypeId::of::<PlainBase>(), &plain);
    registry
}

#[test]
fn widget_casts_to_edible_and_back() {
    let registry = registry();
    let widget = Widget;
    let as_base: &(dyn Base + 'static) = &widget;
    let edible = trait_cross_cast_ref(as_base, &edible_id(), &registry, to_edible).ok().unwrap();
    assert_eq!(edible.favorite_food(), "Chicken");
    let back = trait_cross_cast_ref(edible, &base_id(), &registry, to_base).ok().unwrap();
    assert_eq!(back.name(), "Widget");
    assert_eq!(back.name(), as_base.name());
}

#[test]
fn plain_base_does_not_implement_edible() {
    let registry = registry();
    let plain = PlainBase;
    let as_base: &(dyn Base + 'static) = &plain;
    match trait_cross_cast_ref(as_base, &edible_id(), &registry, to_edible) {
        Err(CastError::TraitNotImplemented { trait_name, trait_id, concrete_name, concrete_id }) => {
            assert_eq!(concrete_name, "PlainBase");
            assert_eq!(trait_name, "Edible");
            assert_eq!(concrete_id, TypeId::of::<PlainBase>());
            assert_eq!(trait_id, TypeId::of::<dyn Edible>());
        }
        _ => panic!("expected TraitNotImplemented"),
    }
}

#[test]
fn mystery_is_not_registered() {
    let registry = registry();
    let widget = Widget;
    let as_base: &(dyn Base + 'static) = &widget;
    match trait_cross_cast_ref(as_base, &mystery_id(), &registry, to_mystery) {
        Err(CastError::TraitNotRegistered { trait_name, trait_id, concrete_name, concrete_id }) => {
            assert_eq!(concrete_name, "Widget");
            assert_eq!(concrete_id, TypeId::of::<Widget>());
            assert_eq!(trait_name, "Mystery");
            assert_eq!(trait_id, TypeId::of::<dyn Mystery>());
        }
        _ => panic!("expected TraitNotRegistered"),
    }
    assert_eq!((&widget as &dyn Mystery).secret(), 42);
}

#[test]
fn unregistered_type_is_reported_by_name() {
    let registry = registry();
    let stranger = Stranger;
    let as_base: &(dyn Base + 'static) = &stranger;
    match trait_cross_cast_ref(as_base, &base_id(), &registry, to_base_from_base) {
        Err(CastError::TypeNotRegistered { concrete_name, concrete_id, trait_name, trait_id }) => {
            assert_eq!(trait_name, "Base");
            assert_eq!(trait_id, TypeId::of::<dyn Base>());
            assert_eq!(concrete_name, "Stranger");
            assert_eq!(concrete_id, TypeId::of::<Stranger>());
        }
        _ => panic!("expected TypeNotRegistered"),
    }
}

fn to_base_from_base<'a>(from: &'a (dyn Base + 'static), _table: Table) -> &'a (dyn Base + 'static) {
    from
}

#[test]
fn lookup_finds_registered_table() {
    let registry = registry();
    let widget = TypeIdentity::of::<Widget>("Widget");
    match get_vtable(&widget, &edible_id(), &registry) {
        Ok(Table::Edible(view)) => {
            let w = Widget;
            assert_eq!(view(&w).unwrap().favorite_food(), "Chicken");
        }
        _ => panic!("expected the Edible table"),
    }
    let plain = TypeIdentity::of::<PlainBase>("PlainBase");
    assert!(matches!(get_vtable(&plain, &base_id(), &registry), Ok(Table::Base(_))));
}

#[test]
fn registering_twice_changes_nothing() {
    let mut registry = registry();
    let mut widget = RegistererHelper::new();
    widget.register_trait_vtables(base_id().id, Some(Table::Base(base_view::<Widget>)));
    widget.register_trait_vtables(edible_id().id, Some(Table::Edible(edible_view::<Widget>)));
    registry.register_type(TypeId::of::<Widget>(), &widget);
    registry.register_type(TypeId::of::<Widget>(), &widget);
    assert!(registry.is_type_registered(&TypeId::of::<Widget>()));
    assert!(registry.is_trait_registered(&TypeId::of::<dyn Edible>()));
    assert!(!registry.is_trait_registered(&TypeId::of::<dyn Mystery>()));
    let w = TypeIdentity::of::<Widget>("Widget");
    for _ in 0..2 {
        assert!(matches!(get_vtable(&w, &edible_id(), &registry), Ok(Table::Edible(_))));
        assert!(matches!(get_vtable(&w, &base_id(), &registry), Ok(Table::Base(_))));
    }
}

#[test]
fn not_implemented_marker_is_kept_apart_from_absence() {
    let mut registry: TraitVTableRegistry<Table> = TraitVTableRegistry::new();
    let mut plain = RegistererHelper::new();
    plain.register_trait_vtables(base_id().id, Some(Table::Base(base_view::<PlainBase>)));
    plain.register_trait_vtables(edible_id().id, None);
    registry.register_type(TypeId::of::<PlainBase>(), &plain);
    let p = TypeIdentity::of::<PlainBase>("PlainBase");
    assert!(registry.is_trait_registered(&TypeId::of::<dyn Edible>()));
    match get_vtable(&p, &edible_id(), &registry) {
        Err(CastError::TraitNotImplemented { concrete_name, trait_name, .. }) => {
            assert_eq!(concrete_name, "PlainBase");
            assert_eq!(trait_name, "Edible");
        }
        _ => panic!("expected TraitNotImplemented"),
    }
}

#[test]
fn first_declaration_wins() {
    let mut mapper: TypeVTableMapper<u32> = TypeVTableMapper::new();
    let id = TypeId::of::<dyn Edible>();
    assert_eq!(mapper.entry(&id), None);
    mapper.register_vtable(id, Some(7));
    assert_eq!(mapper.entry(&id), Some(Some(7)));
    mapper.register_vtable(id, Some(9));
    assert_eq!(mapper.entry(&id), Some(Some(7)));
    mapper.register_vtable(id, None);
    assert_eq!(mapper.entry(&id), Some(Some(7)));
    let other = TypeId::of::<dyn Base>();
    mapper.register_vtable(other, None);
    mapper.register_vtable(other, Some(3));
    assert_eq!(mapper.entry(&other), Some(None));
}

#[test]
fn registered_table_is_never_replaced() {
    let mut registry = registry();
    let mut again = RegistererHelper::new();
    again.register_trait_vtables(edible_id().id, None);
    registry.register_type(TypeId::of::<Widget>(), &again);
    let w = TypeIdentity::of::<Widget>("Widget");
    assert!(matches!(get_vtable(&w, &edible_id(), &registry), Ok(Table::Edible(_))));
}

fn box_to_edible(from: Box<dyn Base>, table: Table) -> Box<dyn Edible> {
    let any: &(dyn Any + 'static) = &*from;
    match table {
        Table::Edible(view) => {
            assert!(view(any).is_some());
            let any: Box<dyn Any> = from;
            let widget: Box<Widget> = any.downcast::<Widget>().ok().expect("a widget");
            widget
        }
        _ => panic!("table of another interface"),
    }
}

#[test]
fn failed_box_cast_returns_the_same_box() {
    let registry = registry();
    let boxed: Box<dyn Base> = Box::new(PlainBase);
    let address = format!("{:p}", &*boxed);
    match trait_cross_cast_box(boxed, &edible_id(), &registry, box_to_edible) {
        Err(CastErrorWith { error, with }) => {
            assert!(matches!(error, CastError::TraitNotImplemented { .. }));
            assert_eq!(format!("{:p}", &*with), address);
            assert_eq!(with.name(), "PlainBase");
        }
        Ok(_) => panic!("expected a failure"),
    }
}

#[test]
fn successful_box_cast_keeps_the_object() {
    let registry = registry();
    let boxed: Box<dyn Base> = Box::new(Widget);
    let edible = trait_cross_cast_box(boxed, &edible_id(), &registry, box_to_edible).ok().unwrap();
    assert_eq!(edible.favorite_food(), "Chicken");
}

fn rc_to_edible(from: Rc<dyn Base>, _table: Table) -> Rc<dyn Edible> {
    let any: Rc<dyn Any> = from;
    any.downcast::<Widget>().ok().expect("a widget")
}

#[test]
fn failed_rc_cast_returns_the_same_rc() {
    let registry = registry();
    let shared: Rc<dyn Base> = Rc::new(PlainBase);
    let keep = Rc::clone(&shared);
    match trait_cross_cast_rc(shared, &edible_id(), &registry, rc_to_edible) {
        Err(e) => {
            assert!(Rc::ptr_eq(&e.with, &keep));
            assert_eq!(Rc::strong_count(&keep), 2);
        }
        Ok(_) => panic!("expected a failure"),
    }
    assert_eq!(Rc::strong_count(&keep), 1);
}

fn arc_to_edible(from: Arc<dyn Base + Send + Sync>, _table: Table) -> Arc<dyn Edible + Send + Sync> {
    let any: Arc<dyn Any + Send + Sync> = from;
    any.downcast::<Widget>().ok().expect("a widget")
}


#[test]
fn arc_cast_succeeds_and_fails_without_losing_the_handle() {
    let registry = registry();
    let shared: Arc<dyn Base + Send + Sync> = Arc::new(Widget);
    let edible = trait_cross_cast_arc(shared, &edible_id(), &registry, arc_to_edible).ok().unwrap();
    assert_eq!(edible.favorite_food(), "Chicken");
    let plain: Arc<dyn Base + Send + Sync> = Arc::new(PlainBase);
    let keep = Arc::clone(&plain);
    let err = trait_cross_cast_arc(plain, &edible_id(), &registry, arc_to_edible).err().unwrap();
    assert!(Arc::ptr_eq(&err.with, &keep));
}

#[test]
fn cast_with_hands_back_the_value_on_failure() {
    let registry = registry();
    let stranger = TypeIdentity::of::<Stranger>("Stranger");
    let r = trait_cross_cast_with(&stranger, &base_id(), &registry, 17u32, |x: u32, _t: Table| x + 1);
    match r {
        Err(e) => {
            assert_eq!(e.with, 17);
            assert_eq!(e.error.message(), "type 'Stranger' not registered");
        }
        Ok(_) => panic!("expected a failure"),
    }
    let widget = TypeIdentity::of::<Widget>("Widget");
    let r = trait_cross_cast_with(&widget, &base_id(), &registry, 17u32, |x: u32, _t: Table| x + 1);
    assert_eq!(r.ok(), Some(18));
}

#[test]
fn error_messages() {
    let e = CastError::TraitNotImplemented {
        trait_name: "Edible",
        trait_id: TypeId::of::<dyn Edible>(),
        concrete_name: "PlainBase",
        concrete_id: TypeId::of::<PlainBase>(),
    };
    assert_eq!(e.message(), "trait 'Edible' not implemented by the underlying concrete type 'PlainBase'");
    let e = CastError::TraitNotRegistered {
        trait_name: "Mystery",
        trait_id: TypeId::of::<dyn Mystery>(),
        concrete_name: "Widget",
        concrete_id: TypeId::of::<Widget>(),
    };
    assert_eq!(e.message(), "trait 'Mystery' not registered");
}

#[test]
fn identities_compare_by_id() {
    let a = TypeIdentity::of::<Widget>("Widget");
    let b = TypeIdentity::of::<Widget>("another name");
    let c = TypeIdentity::of::<PlainBase>("Widget");
    assert!(a.same_as(&b));
    assert!(!a.same_as(&c));
}

#[test]
fn string_equality() {
    assert!(comptime_str_eq("dyn ", "dyn "));
    assert!(comptime_str_eq("", ""));
    assert!(!comptime_str_eq("dyn", "dyn "));
    assert!(!comptime_str_eq("dyn x", "dyn y"));
    assert!(comptime_str_eq("héllo", "héllo"));
}

#[test]
fn trait_object_layout() {
    assert!(is_trait_object_layout("dyn core::any::Any", 16, 16));
    assert!(!is_trait_object_layout("dyn core::any::Any", 8, 16));
    assert!(!is_trait_object_layout("i32", 8, 16));
    assert!(!is_trait_object_layout("dyn", 16, 16));
}

#[test]
fn errors_are_wrapped_with_their_value() {
    let error = CastError::TraitNotRegistered {
        trait_name: "Mystery",
        trait_id: TypeId::of::<u8>(),
        concrete_name: "Widget",
        concrete_id: TypeId::of::<Widget>(),
    };
    let e = CastErrorWith::new(error, 5u8);
    assert_eq!(e.with, 5);
}
