use componentize_js::context::{CallContext, DeferredFree};
use componentize_js::error::ProtocolError;
use componentize_js::roots::RootRegistry;
use componentize_js::value::Value;

#[test]
fn root_registry_balance_after_create_and_destroy() {
    let mut reg = RootRegistry::new();
    let outer = CallContext::new(&mut reg);
    let before = reg.len();
    let ctx = CallContext::new(&mut reg);
    assert_eq!(reg.len(), before + 1);
    let frees = ctx.destroy(&mut reg).unwrap();
    assert!(frees.is_empty());
    assert_eq!(reg.len(), before);
    outer.destroy(&mut reg).unwrap();
    assert_eq!(reg.len(), 0);
}

#[test]
fn root_registry_double_remove_detected() {
    let mut reg = RootRegistry::new();
    let id = reg.register();
    assert!(reg.contains(id));
    assert_eq!(reg.deregister(id), Ok(()));
    assert_eq!(
        reg.deregister(id),
        Err(ProtocolError::RootRegistryMismatch)
    );
    assert_eq!(reg.len(), 0);
}

#[test]
fn root_registry_ids_are_fresh() {
    let mut reg = RootRegistry::new();
    let a = reg.register();
    let b = reg.register();
    assert_ne!(a, b);
    reg.deregister(a).unwrap();
    let c = reg.register();
    assert_ne!(a, c);
    assert_ne!(b, c);
}

#[test]
fn push_pop_u32_round_trip() {
    let mut reg = RootRegistry::new();
    let mut ctx = CallContext::new(&mut reg);
    ctx.push_u32(7);
    assert_eq!(ctx.pop_u32(), Ok(7));
    ctx.push_u32(u32::MAX);
    assert_eq!(ctx.pop_u32(), Ok(u32::MAX));
    assert_eq!(ctx.stack_len(), 0);
    ctx.destroy(&mut reg).unwrap();
}

#[test]
fn primitive_round_trips() {
    let mut reg = RootRegistry::new();
    let mut ctx = CallContext::new(&mut reg);
    ctx.push_bool(true);
    assert_eq!(ctx.pop_bool(), Ok(true));
    ctx.push_char('é');
    assert_eq!(ctx.pop_char(), Ok('é'));
    ctx.push_u8(200);
    assert_eq!(ctx.pop_u8(), Ok(200));
    ctx.push_s8(-100);
    assert_eq!(ctx.pop_s8(), Ok(-100));
    ctx.push_u16(40_000);
    assert_eq!(ctx.pop_u16(), Ok(40_000));
    ctx.push_s16(-30_000);
    assert_eq!(ctx.pop_s16(), Ok(-30_000));
    ctx.push_s32(-5);
    assert_eq!(ctx.pop_s32(), Ok(-5));
    ctx.push_u64(1 << 60);
    assert_eq!(ctx.pop_u64(), Ok(1 << 60));
    ctx.push_s64(-(1 << 60));
    assert_eq!(ctx.pop_s64(), Ok(-(1 << 60)));
    ctx.push_f32_bits(1.5f32.to_bits());
    assert_eq!(ctx.pop_f32_bits().map(f32::from_bits), Ok(1.5f32));
    ctx.push_f64_bits(2.25f64.to_bits());
    assert_eq!(ctx.pop_f64_bits().map(f64::from_bits), Ok(2.25f64));
    ctx.push_enum_discriminant(3);
    assert_eq!(ctx.pop_enum_discriminant(), Ok(3));
    ctx.push_flags(0b1011);
    assert_eq!(ctx.pop_flags(), Ok(0b1011));
    ctx.push_future(11);
    assert_eq!(ctx.pop_future(), Ok(11));
    ctx.push_stream(12);
    assert_eq!(ctx.pop_stream(), Ok(12));
    ctx.destroy(&mut reg).unwrap();
}

#[test]
fn kind_mismatch_is_detected_and_preserves_the_stack() {
    let mut reg = RootRegistry::new();
    let mut ctx = CallContext::new(&mut reg);
    ctx.push_bool(true);
    assert_eq!(ctx.pop_u32(), Err(ProtocolError::KindMismatch));
    assert_eq!(ctx.stack_len(), 1);
    assert_eq!(ctx.pop_bool(), Ok(true));
    assert_eq!(ctx.pop_u32(), Err(ProtocolError::StackUnderflow));
    ctx.destroy(&mut reg).unwrap();
}

#[test]
fn strings_are_retained_for_the_call() {
    let mut reg = RootRegistry::new();
    let mut ctx = CallContext::new(&mut reg);
    ctx.push_string(String::from("hello"));
    ctx.push_string(String::from("world"));
    let second = ctx.pop_string().unwrap();
    let first = ctx.pop_string().unwrap();
    assert_eq!(second, 0);
    assert_eq!(first, 1);
    assert_eq!(ctx.retained_string(0), "world");
    assert_eq!(ctx.retained_string(1), "hello");
    ctx.destroy(&mut reg).unwrap();
}

#[test]
fn resource_handles_are_recorded() {
    let mut reg = RootRegistry::new();
    let mut ctx = CallContext::new(&mut reg);
    ctx.push_borrow(4);
    ctx.push_own(9);
    assert_eq!(ctx.pop_own(), Ok(9));
    assert_eq!(ctx.pop_borrow(), Ok(4));
    assert_eq!(ctx.pop_borrow(), Err(ProtocolError::StackUnderflow));
    ctx.destroy(&mut reg).unwrap();
}

#[test]
fn record_fields_come_back_in_declared_order() {
    let mut reg = RootRegistry::new();
    let mut ctx = CallContext::new(&mut reg);
    ctx.push_u32(1);
    ctx.push_u32(2);
    ctx.push_u32(3);
    ctx.push_record(3).unwrap();
    assert_eq!(ctx.stack_len(), 1);
    assert_eq!(ctx.pop_record(), Ok(3));
    assert_eq!(ctx.pop_u32(), Ok(1));
    assert_eq!(ctx.pop_u32(), Ok(2));
    assert_eq!(ctx.pop_u32(), Ok(3));
    ctx.destroy(&mut reg).unwrap();
}

#[test]
fn tuple_members_come_back_in_declared_order() {
    let mut reg = RootRegistry::new();
    let mut ctx = CallContext::new(&mut reg);
    ctx.push_bool(false);
    ctx.push_u32(8);
    ctx.push_tuple(2).unwrap();
    assert_eq!(ctx.pop_tuple(), Ok(2));
    assert_eq!(ctx.pop_bool(), Ok(false));
    assert_eq!(ctx.pop_u32(), Ok(8));
    ctx.destroy(&mut reg).unwrap();
}

#[test]
fn record_underflow_is_detected() {
    let mut reg = RootRegistry::new();
    let mut ctx = CallContext::new(&mut reg);
    ctx.push_u32(1);
    assert_eq!(ctx.push_record(2), Err(ProtocolError::StackUnderflow));
    assert_eq!(ctx.stack_len(), 1);
    ctx.destroy(&mut reg).unwrap();
}

#[test]
fn variant_round_trip_with_and_without_payload() {
    let mut reg = RootRegistry::new();
    let mut ctx = CallContext::new(&mut reg);
    ctx.push_u32(99);
    ctx.push_variant(2, true).unwrap();
    assert_eq!(ctx.pop_variant(), Ok(2));
    assert_eq!(ctx.pop_u32(), Ok(99));
    ctx.push_variant(5, false).unwrap();
    assert_eq!(ctx.pop_variant(), Ok(5));
    assert_eq!(ctx.stack_len(), 0);
    ctx.destroy(&mut reg).unwrap();
}

#[test]
fn option_and_result_round_trips() {
    let mut reg = RootRegistry::new();
    let mut ctx = CallContext::new(&mut reg);
    ctx.push_u32(17);
    ctx.push_option(true).unwrap();
    assert_eq!(ctx.pop_option(), Ok(1));
    assert_eq!(ctx.pop_u32(), Ok(17));
    ctx.push_option(false).unwrap();
    assert_eq!(ctx.pop_option(), Ok(0));
    ctx.push_u32(23);
    ctx.push_result(false, true).unwrap();
    assert_eq!(ctx.pop_result(), Ok(0));
    assert_eq!(ctx.pop_u32(), Ok(23));
    ctx.push_result(true, false).unwrap();
    assert_eq!(ctx.pop_result(), Ok(1));
    ctx.destroy(&mut reg).unwrap();
}

#[test]
fn list_build_and_consume_protocol() {
    let mut reg = RootRegistry::new();
    let mut ctx = CallContext::new(&mut reg);
    ctx.push_list(2);
    ctx.push_u32(5);
    ctx.list_append().unwrap();
    ctx.push_u32(6);
    ctx.list_append().unwrap();
    assert_eq!(ctx.stack_len(), 1);
    assert_eq!(ctx.pop_list(), Ok(2));
    ctx.pop_iter_next().unwrap();
    assert_eq!(ctx.pop_u32(), Ok(5));
    ctx.pop_iter_next().unwrap();
    assert_eq!(ctx.pop_u32(), Ok(6));
    assert_eq!(ctx.pop_iter_next(), Err(ProtocolError::IterationMismatch));
    ctx.pop_iter_end().unwrap();
    assert_eq!(ctx.pop_iter_end(), Err(ProtocolError::IterationMismatch));
    ctx.destroy(&mut reg).unwrap();
}

#[test]
fn nested_list_traversals_stack() {
    let mut reg = RootRegistry::new();
    let mut ctx = CallContext::new(&mut reg);
    ctx.push_list(1);
    ctx.push_list(1);
    ctx.push_u32(1);
    ctx.list_append().unwrap();
    ctx.list_append().unwrap();
    assert_eq!(ctx.pop_list(), Ok(1));
    ctx.pop_iter_next().unwrap();
    assert_eq!(ctx.pop_list(), Ok(1));
    ctx.pop_iter_next().unwrap();
    assert_eq!(ctx.pop_u32(), Ok(1));
    ctx.pop_iter_end().unwrap();
    ctx.pop_iter_end().unwrap();
    ctx.destroy(&mut reg).unwrap();
}

#[test]
fn premature_iteration_end_is_detected() {
    let mut reg = RootRegistry::new();
    let mut ctx = CallContext::new(&mut reg);
    ctx.push_list(1);
    ctx.push_u32(5);
    ctx.list_append().unwrap();
    assert_eq!(ctx.pop_list(), Ok(1));
    assert_eq!(ctx.pop_iter_end(), Err(ProtocolError::IterationMismatch));
    ctx.pop_iter_next().unwrap();
    assert_eq!(ctx.pop_u32(), Ok(5));
    ctx.pop_iter_end().unwrap();
    ctx.destroy(&mut reg).unwrap();
}

#[test]
fn list_append_without_list_is_detected() {
    let mut reg = RootRegistry::new();
    let mut ctx = CallContext::new(&mut reg);
    ctx.push_u32(1);
    ctx.push_u32(2);
    assert_eq!(ctx.list_append(), Err(ProtocolError::KindMismatch));
    assert_eq!(ctx.pop_u32(), Ok(2));
    assert_eq!(ctx.pop_u32(), Ok(1));
    ctx.destroy(&mut reg).unwrap();
}

#[test]
fn deferred_deallocations_survive_until_destroy() {
    let mut reg = RootRegistry::new();
    let mut ctx = CallContext::new(&mut reg);
    ctx.defer_deallocate(0x1000, 64, 8);
    ctx.defer_deallocate(0x2000, 16, 4);
    ctx.push_u32(1);
    let _ = ctx.pop_u32();
    let frees = ctx.destroy(&mut reg).unwrap();
    assert_eq!(
        frees,
        vec![
            DeferredFree { addr: 0x1000, size: 64, align: 8 },
            DeferredFree { addr: 0x2000, size: 16, align: 4 },
        ]
    );
}

#[test]
fn drain_hands_back_the_arguments_in_pushed_order() {
    let mut reg = RootRegistry::new();
    let mut ctx = CallContext::new(&mut reg);
    ctx.push_u32(1);
    ctx.push_bool(true);
    ctx.push_string(String::from("three"));
    let drained = ctx.drain_values();
    assert_eq!(ctx.stack_len(), 0);
    assert_eq!(drained.len(), 3);
    assert!(matches!(drained[0], Value::U32(1)));
    assert!(matches!(drained[1], Value::Bool(true)));
    assert!(matches!(drained[2], Value::Text(ref t) if t == "three"));
    ctx.destroy(&mut reg).unwrap();
}

#[test]
fn trace_plan_covers_every_registered_stack() {
    let mut reg = RootRegistry::new();
    let mut a = CallContext::new(&mut reg);
    let mut b = CallContext::new(&mut reg);
    a.push_u32(1);
    a.push_string(String::from("x"));
    b.push_list(0);
    b.push_bool(false);
    let stacks = vec![&a, &b];
    let plan = componentize_js::context::trace_plan(&reg, &stacks).unwrap();
    assert_eq!(plan, vec![vec![1], vec![0]]);
    drop(stacks);
    a.destroy(&mut reg).unwrap();
    b.destroy(&mut reg).unwrap();
}

#[test]
fn trace_plan_refuses_an_incomplete_stack_set() {
    let mut reg = RootRegistry::new();
    let a = CallContext::new(&mut reg);
    let b = CallContext::new(&mut reg);
    let missing_one = vec![&a];
    assert_eq!(
        componentize_js::context::trace_plan(&reg, &missing_one),
        Err(ProtocolError::RootRegistryMismatch)
    );
    let out_of_order = vec![&b, &a];
    assert_eq!(
        componentize_js::context::trace_plan(&reg, &out_of_order),
        Err(ProtocolError::RootRegistryMismatch)
    );
    a.destroy(&mut reg).unwrap();
    b.destroy(&mut reg).unwrap();
}

#[test]
fn markable_slots_cover_exactly_the_heap_values() {
    let mut reg = RootRegistry::new();
    let mut ctx = CallContext::new(&mut reg);
    ctx.push_u32(1);
    ctx.push_string(String::from("s"));
    ctx.push_bool(true);
    ctx.push_list(0);
    ctx.push_value(Value::Undefined);
    let slots = ctx.markable_slots();
    assert_eq!(slots, vec![1, 3]);
    ctx.destroy(&mut reg).unwrap();
}
