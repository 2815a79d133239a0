//! The registry build protocol, the fail-fast handler guard, and the
//! owner-wrapper constructors, exercised on small explicit manifests.

use brace_cast::manifest::CastManifest;
use brace_cast::record::{CastFault, CastMutRecord, CastRefRecord, HandlerId};
use brace_cast::registry::{
    cast_from_mut, cast_from_ref, CastMutRegistry, CastRefRegistry, DuplicateRegistration,
};
use brace_cast::statics::{StaticEdge, StaticGraph};
use brace_cast::tag::TypeTag;
use brace_cast::view::{ViewDesc, ViewRef};
use brace_cast::{cast_mut, cast_ref, CastEnv};

const WIDGET: u64 = 1;
const GADGET: u64 = 2;
const PORT: u64 = 20;
const SINK: u64 = 21;

fn tag(id: u64) -> TypeTag {
    TypeTag::new(id)
}

#[test]
fn test_duplicate_registration_is_a_build_error() {
    let records = vec![
        CastRefRecord::new(tag(PORT), tag(WIDGET), HandlerId::new(1)),
        CastRefRecord::new(tag(SINK), tag(WIDGET), HandlerId::new(2)),
        CastRefRecord::new(tag(PORT), tag(WIDGET), HandlerId::new(3)),
    ];
    match CastRefRegistry::new(records) {
        Err(err) => {
            assert_eq!(err, DuplicateRegistration { target: tag(PORT), source: tag(WIDGET) })
        },
        Ok(_) => panic!("the repeated pair must be rejected"),
    }

    let records = vec![
        CastMutRecord::new(tag(SINK), tag(GADGET), HandlerId::new(4)),
        CastMutRecord::new(tag(SINK), tag(GADGET), HandlerId::new(5)),
    ];
    match CastMutRegistry::new(records) {
        Err(err) => {
            assert_eq!(err, DuplicateRegistration { target: tag(SINK), source: tag(GADGET) })
        },
        Ok(_) => panic!("the repeated pair must be rejected"),
    }
}

#[test]
fn test_manifest_build_reports_the_duplicate() {
    let mut contributed = CastManifest::new();
    contributed.register_ref(tag(PORT), tag(WIDGET), HandlerId::new(1));
    contributed.register_mut(tag(SINK), tag(WIDGET), HandlerId::new(2));
    contributed.register_mut(tag(SINK), tag(WIDGET), HandlerId::new(3));
    match contributed.build() {
        Err(err) => {
            assert_eq!(err, DuplicateRegistration { target: tag(SINK), source: tag(WIDGET) })
        },
        Ok(_) => panic!("the repeated exclusive-cast pair must be rejected"),
    }
}

#[test]
fn test_same_pair_in_both_tables_is_no_duplicate() {
    let refs = CastRefRegistry::new(vec![
        CastRefRecord::new(tag(PORT), tag(WIDGET), HandlerId::new(1)),
    ]);
    let muts = CastMutRegistry::new(vec![
        CastMutRecord::new(tag(PORT), tag(WIDGET), HandlerId::new(2)),
    ]);
    assert!(refs.is_ok());
    assert!(muts.is_ok());
}

#[test]
fn test_lookup_returns_the_registered_record() {
    let rec = CastRefRecord::new(tag(PORT), tag(WIDGET), HandlerId::new(7));
    let reg = CastRefRegistry::new(vec![rec]).expect("one record is no duplicate");

    let found = reg.lookup(tag(PORT), tag(WIDGET)).expect("the pair was registered");
    assert_eq!(*found, rec);
    assert_eq!(found.handler, HandlerId::new(7));
    assert!(reg.lookup(tag(SINK), tag(WIDGET)).is_none());
    assert!(reg.lookup(tag(PORT), tag(GADGET)).is_none());
    // The key is the ordered pair: the swap of a registered pair is a miss.
    assert!(reg.lookup(tag(WIDGET), tag(PORT)).is_none());
}

#[test]
fn test_handler_guard_fails_fast_on_forged_tag() {
    let rec = CastRefRecord::new(tag(PORT), tag(WIDGET), HandlerId::new(9));
    assert_eq!(rec.handler_for(tag(WIDGET)), Ok(HandlerId::new(9)));
    assert_eq!(
        rec.handler_for(tag(GADGET)),
        Err(CastFault::TagMismatch { expected: tag(WIDGET), found: tag(GADGET) }),
    );

    let rec = CastMutRecord::new(tag(SINK), tag(GADGET), HandlerId::new(10));
    assert_eq!(rec.handler_for(tag(GADGET)), Ok(HandlerId::new(10)));
    assert_eq!(
        rec.handler_for(tag(WIDGET)),
        Err(CastFault::TagMismatch { expected: tag(GADGET), found: tag(WIDGET) }),
    );
}

fn small_env() -> CastEnv {
    // WIDGET is registered for shared casts to PORT and SINK, but for
    // exclusive casts only to PORT; GADGET is registered for nothing.
    let refs = CastRefRegistry::new(vec![
        CastRefRecord::new(tag(PORT), tag(WIDGET), HandlerId::new(1)),
        CastRefRecord::new(tag(SINK), tag(WIDGET), HandlerId::new(2)),
    ])
    .expect("no duplicate registrations");
    let muts = CastMutRegistry::new(vec![
        CastMutRecord::new(tag(PORT), tag(WIDGET), HandlerId::new(3)),
    ])
    .expect("no duplicate registrations");
    CastEnv::new(StaticGraph::empty(), refs, muts)
}

#[test]
fn test_mutable_and_immutable_tables_are_independent() {
    let env = small_env();
    let mut value: u32 = 5;
    let view = ViewDesc::erased(tag(WIDGET));

    let shared = ViewRef::with_view(&value, view);
    assert!(cast_ref(&env, &shared, tag(SINK)).is_some());

    assert!(cast_mut(&env, &mut value, view, tag(SINK)).is_none());
    assert!(cast_mut(&env, &mut value, view, tag(PORT)).is_some());
    assert_eq!(value, 5);
}

#[test]
fn test_static_edge_serves_both_kinds_without_records() {
    let graph = StaticGraph::new(vec![StaticEdge::new(tag(GADGET), tag(PORT))]);
    let refs = CastRefRegistry::new(Vec::new()).expect("an empty manifest has no duplicates");
    let muts = CastMutRegistry::new(Vec::new()).expect("an empty manifest has no duplicates");
    let env = CastEnv::new(graph, refs, muts);

    let mut value: u32 = 8;
    let view = ViewDesc::erased(tag(GADGET));

    let shared = ViewRef::with_view(&value, view);
    let port = cast_ref(&env, &shared, tag(PORT)).expect("a declared implication always casts");
    assert_eq!(port.view.iface, tag(PORT));
    assert_eq!(port.view.concrete, tag(GADGET));
    assert_eq!(*port.obj, 8);

    assert!(cast_mut(&env, &mut value, view, tag(PORT)).is_some());
    // The implication is directed, and nothing else is declared.
    let shared = ViewRef::with_view(&value, ViewDesc::erased(tag(PORT)));
    assert!(cast_ref(&env, &shared, tag(GADGET)).is_none());
    assert!(cast_ref(&env, &ViewRef::with_view(&value, view), tag(SINK)).is_none());
}

#[test]
fn test_sidecast_commutes_with_direct_cast() {
    let env = small_env();
    let value: u32 = 3;
    let erased = ViewRef::with_view(&value, ViewDesc::erased(tag(WIDGET)));

    let via_port = {
        let port = cast_ref(&env, &erased, tag(PORT)).expect("registered for PORT");
        cast_ref(&env, &port, tag(SINK)).expect("registered for SINK")
    };
    let direct = cast_ref(&env, &erased, tag(SINK)).expect("registered for SINK");
    assert_eq!(via_port.view, direct.view);
    assert_eq!(*via_port.obj, *direct.obj);
}

#[test]
fn test_free_functions_cast_erased_references() {
    let env = small_env();
    let mut value: u32 = 11;
    let view = ViewDesc { concrete: tag(WIDGET), iface: tag(PORT) };

    let shared = ViewRef::with_view(&value, view);
    let sink = cast_from_ref(&env.refs, &shared, tag(SINK)).expect("registered for SINK");
    assert_eq!(sink.view, ViewDesc { concrete: tag(WIDGET), iface: tag(SINK) });

    let port = cast_from_mut(&env.muts, &mut value, view, tag(PORT)).expect("registered for PORT");
    *port = 12;
    assert_eq!(value, 12);
    assert!(cast_from_mut(&env.muts, &mut value, view, tag(SINK)).is_none());
}

#[test]
fn test_owner_wrappers_are_transparent() {
    let env = small_env();
    let view = ViewDesc::erased(tag(WIDGET));

    let boxed: Box<u32> = Box::new(21);
    let from_box = ViewRef::of_box(&boxed, view);
    assert_eq!(*from_box.obj, 21);
    assert!(cast_ref(&env, &from_box, tag(PORT)).is_some());

    let counted: std::rc::Rc<u32> = std::rc::Rc::new(22);
    let from_rc = ViewRef::of_rc(&counted, view);
    assert_eq!(*from_rc.obj, 22);
    assert!(cast_ref(&env, &from_rc, tag(PORT)).is_some());

    let sharable: std::sync::Arc<u32> = std::sync::Arc::new(23);
    let from_arc = ViewRef::of_arc(&sharable, view);
    assert_eq!(*from_arc.obj, 23);
    assert!(cast_ref(&env, &from_arc, tag(PORT)).is_some());
}

#[test]
fn test_empty_registries_cast_nothing() {
    let env = CastEnv::new(
        StaticGraph::empty(),
        CastRefRegistry::empty(),
        CastMutRegistry::default(),
    );
    let mut value: u32 = 1;
    let shared = ViewRef::erase(&value, tag(WIDGET));
    assert!(cast_ref(&env, &shared, tag(PORT)).is_none());
    assert!(cast_mut(&env, &mut value, ViewDesc::erased(tag(WIDGET)), tag(PORT)).is_none());
}

#[test]
fn test_recasting_to_the_same_target_changes_nothing() {
    let env = small_env();
    let value: u32 = 2;
    let erased = ViewRef::with_view(&value, ViewDesc::erased(tag(WIDGET)));

    let once = cast_ref(&env, &erased, tag(SINK)).expect("registered for SINK");
    let twice = cast_ref(&env, &once, tag(SINK)).expect("still registered for SINK");
    assert_eq!(once.view, twice.view);
    assert_eq!(*once.obj, *twice.obj);
}

#[test]
fn test_negative_closure_on_unregistered_pairs() {
    let env = small_env();
    let value: u32 = 0;

    // GADGET has no registrations at all: every cast of it is empty.
    let gadget = ViewRef::with_view(&value, ViewDesc::erased(tag(GADGET)));
    assert!(cast_ref(&env, &gadget, tag(PORT)).is_none());
    assert!(cast_ref(&env, &gadget, tag(SINK)).is_none());
    assert!(cast_ref(&env, &gadget, tag(WIDGET)).is_none());

    // The registry keys on the concrete type, not the current interface.
    let widget_as_port = ViewRef::with_view(&value, ViewDesc {
        concrete: tag(WIDGET),
        iface: tag(PORT),
    });
    assert!(cast_ref(&env, &widget_as_port, tag(SINK)).is_some());
}
