use duchess::array::{allocation_failed, array_length, JavaArray, JavaArrayExt};
use duchess::class_definition::{
    Aborted, ClassDefinition, ConstructorLookup, Registration, Resolved,
};
use duchess::error::{try_extract_message, Error};
use duchess::global::{GlobalOp, IntoGlobal, Promotion};
use duchess::java::{Class, Object, Throwable};
use duchess::jvm::{
    get_or_default_init_jvm, unwrap_global_jvm, Attach, CloneIn, Global, GlobalJvm, JavaObject,
    JavaObjectExt, JavaType, Jvm, JvmOp, Launch, LaunchStep, Local,
};
use duchess::linkage::{linkage_matches, JavaFunction, NativeMethod};
use duchess::native::{complete, Completion};
use duchess::raw::{EnvPtr, JvmPtr, MethodPtr, ObjectPtr};
use duchess::shim_class::{step, RawArc, TransferAction, TransferEvent, TransferState};

fn object(address: u64) -> ObjectPtr {
    ObjectPtr::new(address).unwrap()
}

fn entry<'jvm>() -> Jvm<'jvm> {
    Jvm::enter(EnvPtr { address: 77 })
}

#[test]
fn null_is_no_handle() {
    assert!(ObjectPtr::new(0).is_none());
    assert!(MethodPtr::new(0).is_none());
    assert!(JvmPtr::new(0).is_none());
    assert_eq!(object(5).as_u64(), 5);
    assert_eq!(MethodPtr::new(6).unwrap().as_u64(), 6);
    assert_eq!(JvmPtr::new(u64::MAX).unwrap().as_u64(), u64::MAX);
}

#[test]
fn builder_starts_with_the_default_options() {
    let plain = Jvm::builder(false, None).try_launch();
    assert!(plain.options.is_empty());
    assert!(plain.libjvm_path.is_none());
    assert!(!plain.use_existing);
    let checked = Jvm::builder(true, Some("a.jar:b".to_string())).launch_or_use_existing();
    assert_eq!(checked.options, vec!["-Xcheck:jni", "-Djava.class.path=a.jar:b"]);
    assert!(checked.use_existing);
}

#[test]
fn builder_collects_options_in_order() {
    let launch = Jvm::builder(false, None)
        .custom("-Xmx1g")
        .add_classpath("x/y.jar")
        .load_libjvm_at("/opt/jvm/libjvm.so")
        .custom("-ea")
        .try_launch();
    assert_eq!(launch.options, vec!["-Xmx1g", "-Djava.class.path=x/y.jar", "-ea"]);
    assert_eq!(launch.libjvm_path.as_deref(), Some("/opt/jvm/libjvm.so"));
}

fn launch(use_existing: bool) -> Launch {
    Launch { libjvm_path: None, options: vec![], use_existing }
}

#[test]
fn a_launch_that_finds_a_runtime_uses_it_only_if_it_may() {
    let jvm = JvmPtr::new(9).unwrap();
    assert!(matches!(launch(false).created::<()>(Ok(jvm)), LaunchStep::Record(j) if j == jvm));
    assert!(matches!(launch(true).created::<()>(Ok(jvm)), LaunchStep::Record(j) if j == jvm));
    assert!(matches!(
        launch(false).created::<()>(Err(Error::JvmAlreadyExists)),
        LaunchStep::Fail(Error::JvmAlreadyExists)
    ));
    assert!(matches!(
        launch(true).created::<()>(Err(Error::JvmAlreadyExists)),
        LaunchStep::FindExisting
    ));
    assert!(matches!(
        launch(true).created::<()>(Err(Error::NestedUsage)),
        LaunchStep::Fail(Error::NestedUsage)
    ));
}

#[test]
fn the_runtime_that_exists_is_recorded() {
    let jvm = JvmPtr::new(9).unwrap();
    assert!(matches!(Launch::existing::<()>(Ok(Some(jvm))), LaunchStep::Record(j) if j == jvm));
    assert!(matches!(
        Launch::existing::<()>(Ok(None)),
        LaunchStep::Fail(Error::JvmInternal(m)) if m == "JVM should already exist"
    ));
    assert!(matches!(
        Launch::existing::<()>(Err(Error::NullDeref)),
        LaunchStep::Fail(Error::NullDeref)
    ));
}

#[test]
fn the_first_runtime_that_is_recorded_stays() {
    let global = GlobalJvm::new();
    assert!(global.get().is_none());
    assert!(unwrap_global_jvm(&global).is_none());
    match get_or_default_init_jvm(&global, true, None) {
        Err(l) => {
            assert!(l.use_existing);
            assert_eq!(l.options, vec!["-Xcheck:jni"]);
        }
        Ok(_) => panic!("nothing is recorded yet"),
    }
    assert!(matches!(
        Jvm::attach_thread_permanently(&global, false, None),
        Attach::LaunchFirst(l) if l.options.is_empty()
    ));
    let first = JvmPtr::new(11).unwrap();
    let second = JvmPtr::new(12).unwrap();
    assert_eq!(global.record(first), first);
    assert_eq!(global.record(second), first);
    assert_eq!(global.get(), Some(first));
    assert_eq!(unwrap_global_jvm(&global), Some(first));
    assert!(matches!(get_or_default_init_jvm(&global, true, None), Ok(j) if j == first));
    assert!(matches!(
        Jvm::attach_thread_permanently(&global, false, None),
        Attach::Thread(j) if j == first
    ));
}

#[test]
fn references_of_both_flavors_point_to_the_object() {
    let mut jvm = entry();
    let global: Global<Object> = Global::from_raw(object(40));
    assert_eq!(global.as_raw(), object(40));
    let local = jvm.local(&global);
    assert_eq!(local.as_raw(), object(40));
    assert_eq!(local.entry(), EnvPtr { address: 77 });
    // the managed runtime hands out the handle of the independent reference
    let promoted = jvm.global(&local, object(41));
    assert_eq!(promoted.as_raw(), object(41));
    assert_eq!(local.as_raw(), object(40));
    let copy = local.clone_in(&mut jvm);
    assert_eq!(copy.as_raw(), object(40));
    assert_eq!(copy.entry(), jvm.entry());
    let mut other = Jvm::enter(EnvPtr { address: 3 });
    let made: Local<Object> = other.adopt(object(41));
    assert_eq!(made.entry(), EnvPtr { address: 3 });
    assert_eq!(made.as_raw(), object(41));
}

/// Makes a value independent with the handles that stand for what the
/// managed runtime would hand out: each object's handle plus one thousand.
fn promote<'jvm, V: IntoGlobal<'jvm>>(value: V, jvm: &mut Jvm<'jvm>) -> V::Output {
    let promotion = Promotion::new(value);
    let handles: Vec<ObjectPtr> =
        promotion.scoped().iter().map(|o| object(o.as_u64() + 1000)).collect();
    promotion.complete(jvm, &handles).ok().unwrap()
}

#[test]
fn promotion_reaches_into_collections() {
    let mut jvm = entry();
    let local: Local<Object> = jvm.adopt(object(1));
    assert_eq!(promote(local, &mut jvm).as_raw(), object(1001));
    let kept: Global<Object> = Global::from_raw(object(2));
    assert_eq!(promote(kept, &mut jvm).as_raw(), object(2));

    let locals: Vec<Local<Object>> = (1..=4).map(|i| jvm.adopt(object(i))).collect();
    let globals = promote(locals, &mut jvm);
    let addresses: Vec<u64> = globals.iter().map(|g| g.as_raw().as_u64()).collect();
    assert_eq!(addresses, vec![1001, 1002, 1003, 1004]);
    assert_eq!(promote(Vec::<i32>::new(), &mut jvm), Vec::<i32>::new());

    let some: Option<Local<Object>> = Some(jvm.adopt(object(5)));
    assert_eq!(promote(some, &mut jvm).unwrap().as_raw(), object(1005));
    let none: Option<Local<Object>> = None;
    assert!(promote(none, &mut jvm).is_none());

    let ok: Result<Local<Object>, i32> = Ok(jvm.adopt(object(6)));
    assert_eq!(promote(ok, &mut jvm).ok().unwrap().as_raw(), object(1006));
    let err: Result<i32, Local<Object>> = Err(jvm.adopt(object(7)));
    assert_eq!(promote(err, &mut jvm).err().unwrap().as_raw(), object(1007));
}

#[test]
fn each_reference_gets_its_own_handle_in_order() {
    let mut jvm = entry();
    let nested: Vec<Option<Vec<Local<Object>>>> = vec![
        Some(vec![jvm.adopt(object(1)), jvm.adopt(object(2))]),
        None,
        Some(vec![]),
        Some(vec![jvm.adopt(object(3))]),
    ];
    let promotion = Promotion::new(nested);
    assert_eq!(promotion.scoped(), vec![object(1), object(2), object(3)]);
    let handles = vec![object(10), object(20), object(30)];
    let out = promotion.complete(&mut jvm, &handles).ok().unwrap();
    let addresses: Vec<Option<Vec<u64>>> = out
        .iter()
        .map(|o| o.as_ref().map(|v| v.iter().map(|g| g.as_raw().as_u64()).collect()))
        .collect();
    assert_eq!(addresses, vec![Some(vec![10, 20]), None, Some(vec![]), Some(vec![30])]);
}

#[test]
fn a_promotion_needs_one_handle_for_each_reference() {
    let mut jvm = entry();
    let locals: Vec<Local<Object>> = vec![jvm.adopt(object(1)), jvm.adopt(object(2))];
    let promotion = Promotion::new(locals);
    let back = promotion.complete(&mut jvm, &vec![object(10)]).err().unwrap();
    assert_eq!(back.scoped(), vec![object(1), object(2)]);
    let back = back.complete(&mut jvm, &vec![object(10), object(20), object(30)]).err().unwrap();
    assert!(back.complete(&mut jvm, &vec![object(10), object(20)]).is_ok());
}

#[test]
fn a_borrowed_reference_is_promoted_like_one_that_is_owned() {
    let mut jvm = entry();
    let local: Local<Object> = jvm.adopt(object(8));
    let global: Global<Object> = Global::from_raw(object(9));
    assert_eq!(promote(&local, &mut jvm).as_raw(), object(1008));
    assert_eq!(promote(&global, &mut jvm).as_raw(), object(1009));
    assert_eq!(local.as_raw(), object(8));
    let (direct, next) = (&local).into_global(&mut jvm, &vec![object(1), object(2)], 1);
    assert_eq!(direct.as_raw(), object(2));
    assert_eq!(next, 2);
}

#[test]
fn plain_values_stay_as_they_are() {
    let mut jvm = entry();
    assert_eq!(promote("text".to_string(), &mut jvm), "text");
    assert_eq!(promote((), &mut jvm), ());
    assert!(promote(true, &mut jvm));
    assert_eq!(promote(-8i8, &mut jvm), -8);
    assert_eq!(promote(8u8, &mut jvm), 8);
    assert_eq!(promote(-16i16, &mut jvm), -16);
    assert_eq!(promote(16u16, &mut jvm), 16);
    assert_eq!(promote(-32i32, &mut jvm), -32);
    assert_eq!(promote(32u32, &mut jvm), 32);
    assert_eq!(promote(i64::MIN, &mut jvm), i64::MIN);
    assert_eq!(promote(u64::MAX, &mut jvm), u64::MAX);
    assert_eq!(promote(i128::MIN, &mut jvm), i128::MIN);
    assert_eq!(promote(u128::MAX, &mut jvm), u128::MAX);
    assert!(Promotion::new(5u8).scoped().is_empty());
    assert_eq!(7u8.into_global(&mut jvm, &vec![object(1)], 1), (7, 1));
    assert_eq!(jvm.entry(), EnvPtr { address: 77 });
}

#[test]
fn errors_keep_their_kind_when_promoted() {
    let mut jvm = entry();
    let thrown: Error<Local<Throwable>> = Error::Thrown(jvm.adopt(object(9)));
    assert!(thrown.is_thrown());
    assert!(matches!(promote(thrown, &mut jvm), Error::Thrown(g) if g.as_raw() == object(1009)));
    let too_long: Error<Local<Throwable>> = Error::SliceTooLong(12);
    assert!(matches!(promote(too_long, &mut jvm), Error::SliceTooLong(12)));
    let null: Error<Local<Throwable>> = Error::NullDeref;
    assert!(matches!(promote(null, &mut jvm), Error::NullDeref));
    let nested: Error<Local<Throwable>> = Error::NestedUsage;
    assert!(matches!(promote(nested, &mut jvm), Error::NestedUsage));
    let exists: Error<Local<Throwable>> = Error::JvmAlreadyExists;
    assert!(matches!(promote(exists, &mut jvm), Error::JvmAlreadyExists));
    let internal: Error<Local<Throwable>> = Error::JvmInternal("broken".to_string());
    assert!(!internal.is_thrown());
    assert!(matches!(promote(internal, &mut jvm), Error::JvmInternal(m) if m == "broken"));
}

#[test]
fn error_messages() {
    let thrown: Error<u8> = Error::Thrown(1);
    assert_eq!(thrown.message("java.lang.Error: no"), "Java invocation threw: java.lang.Error: no");
    assert_eq!(
        Error::<u8>::SliceTooLong(2147483648).message(""),
        "slice was too long (`2147483648`) to convert to a Java array, which are limited to `i32::MAX`"
    );
    assert_eq!(Error::<u8>::NullDeref.message("x"), "attempted to deref a null Java object pointer");
    assert_eq!(Error::<u8>::NestedUsage.message("x"), "attempted to nest `Jvm::with` calls");
    assert_eq!(Error::<u8>::JvmAlreadyExists.message("x"), "JVM already exists");
    assert_eq!(Error::<u8>::JvmInternal("inside".to_string()).message("x"), "inside");
}

#[test]
fn message_of_what_was_thrown() {
    assert_eq!(try_extract_message(Ok("boom".to_string())), "boom");
    assert_eq!(
        try_extract_message(Err("JVM already exists".to_string())),
        "failed to get message: JVM already exists"
    );
}

struct Gives(u64);

impl<'jvm> JvmOp<'jvm> for Gives {
    type Output = Local<'jvm, Object>;

    fn gives(
        self,
        before: Jvm<'jvm>,
        after: Jvm<'jvm>,
        result: Result<Self::Output, Error<Local<'jvm, Throwable>>>,
    ) -> bool {
        before.entry() == after.entry()
            && match result {
                Ok(local) => self.0 != 0 && local.as_raw().as_u64() == self.0,
                Err(error) => self.0 == 0 && matches!(error, Error::NullDeref),
            }
    }

    fn execute(
        self,
        jvm: &mut Jvm<'jvm>,
    ) -> Result<Self::Output, Error<Local<'jvm, Throwable>>> {
        if self.0 == 0 {
            Err(Error::NullDeref)
        } else {
            Ok(jvm.adopt(object(self.0)))
        }
    }
}

#[test]
fn a_global_operation_promotes_what_the_inner_one_gives() {
    let mut jvm = entry();
    let pending = GlobalOp::new(Gives(21)).execute(&mut jvm).ok().unwrap();
    assert_eq!(pending.scoped(), vec![object(21)]);
    let global = pending.complete(&mut jvm, &vec![object(121)]).ok().unwrap();
    assert_eq!(global.as_raw(), object(121));
    assert!(matches!(GlobalOp::new(Gives(0)).execute(&mut jvm), Err(Error::NullDeref)));
    let chained = Gives(23).global().execute(&mut jvm).ok().unwrap();
    let chained = chained.complete(&mut jvm, &vec![object(123)]).ok().unwrap();
    assert_eq!(chained.release(), object(123));
    let given: Local<Object> = jvm.adopt(object(22));
    let finished: Result<Promotion<Local<Object>>, i32> = GlobalOp::<Gives>::finish(Ok(given));
    assert_eq!(finished.ok().unwrap().scoped(), vec![object(22)]);
    let failed: Result<Promotion<Local<Object>>, i32> = GlobalOp::<Gives>::finish(Err(5));
    assert_eq!(failed.err(), Some(5));
}

#[test]
fn an_operation_gives_what_it_says() {
    let before = entry();
    let after = entry();
    let mut jvm = entry();
    let result = Gives(4).execute(&mut jvm);
    assert!(Gives(4).gives(before, after, result));
}

#[test]
fn class_names_for_lookup() {
    assert_eq!(<bool as JavaType>::array_class(), "[Z");
    assert_eq!(<i8 as JavaType>::array_class(), "[B");
    assert_eq!(<i16 as JavaType>::array_class(), "[S");
    assert_eq!(<u16 as JavaType>::array_class(), "[C");
    assert_eq!(<i32 as JavaType>::array_class(), "[I");
    assert_eq!(<i64 as JavaType>::array_class(), "[J");
    assert_eq!(<Object as JavaObject>::class(), "java/lang/Object");
    assert_eq!(<Object as JavaType>::array_class(), "[Ljava/lang/Object;");
    assert_eq!(<Class as JavaObject>::class(), "java/lang/Class");
    assert_eq!(<Class as JavaType>::array_class(), "[Ljava/lang/Class;");
    assert_eq!(<Throwable as JavaObject>::class(), "java/lang/Throwable");
    assert_eq!(<Throwable as JavaType>::array_class(), "[Ljava/lang/Throwable;");
    assert_eq!(<JavaArray<i32> as JavaObject>::class(), "[I");
    assert_eq!(<JavaArray<i32> as JavaType>::array_class(), "[[I");
    assert_eq!(<JavaArray<JavaArray<Object>> as JavaObject>::class(), "[[Ljava/lang/Object;");
}

#[test]
fn length_wraps_the_operation_that_gives_the_array() {
    let length = JavaArrayExt::<i32>::length(Gives(3));
    assert_eq!(length.into_array().0, 3);
}

#[test]
fn slices_up_to_the_longest_array_fit() {
    assert!(matches!(array_length::<()>(0), Ok(0)));
    assert!(matches!(array_length::<()>(2147483647), Ok(2147483647)));
    assert!(matches!(array_length::<()>(2147483648), Err(Error::SliceTooLong(2147483648))));
    assert!(matches!(array_length::<()>(usize::MAX), Err(Error::SliceTooLong(usize::MAX))));
}

#[test]
fn allocation_failure_names_type_and_length() {
    assert!(matches!(
        allocation_failed::<()>("int", 12),
        Error::JvmInternal(m) if m == "failed to allocate `int[12]`"
    ));
    assert!(matches!(
        allocation_failed::<()>("boolean", -1),
        Error::JvmInternal(m) if m == "failed to allocate `boolean[-1]`"
    ));
}

#[test]
fn handles_survive_the_way_into_the_runtime_and_back() {
    for address in [1u64, 4096, i64::MAX as u64, i64::MAX as u64 + 1, u64::MAX] {
        let handle = RawArc::new(address).as_i64();
        assert_eq!(handle, address as i64);
        assert_eq!(RawArc::from_i64(handle).into_raw(), address);
    }
    assert_eq!(RawArc::new(u64::MAX).as_i64(), -1);
    assert_eq!(RawArc::new(1 << 63).as_i64(), i64::MIN);
    assert_eq!(RawArc::from_i64(-2).into_raw(), u64::MAX - 1);
}

#[test]
fn a_transfer_that_succeeds_is_released_once_by_the_runtime() {
    let s = TransferState::Unwrapped;
    let (s, a) = step(s, TransferEvent::Allocate { address: 4096 });
    assert_eq!(s, TransferState::Allocated { handle: 4096 });
    assert_eq!(a, TransferAction::Construct { handle: 4096 });
    let (s, a) = step(s, TransferEvent::Constructed);
    assert_eq!(s, TransferState::HandedOff { handle: 4096 });
    assert_eq!(a, TransferAction::Keep);
    let (s, a) = step(s, TransferEvent::Invoke { handle: 4096 });
    assert_eq!(s, TransferState::HandedOff { handle: 4096 });
    assert_eq!(a, TransferAction::Borrow { address: 4096 });
    let (s, a) = step(s, TransferEvent::Invoke { handle: 4097 });
    assert_eq!(s, TransferState::HandedOff { handle: 4096 });
    assert_eq!(a, TransferAction::Refuse);
    let (s, a) = step(s, TransferEvent::Reclaim { handle: 4097 });
    assert_eq!(s, TransferState::HandedOff { handle: 4096 });
    assert_eq!(a, TransferAction::Refuse);
    let (s, a) = step(s, TransferEvent::Reclaim { handle: 4096 });
    assert_eq!(s, TransferState::Released);
    assert_eq!(a, TransferAction::Release { address: 4096 });
    let (s, a) = step(s, TransferEvent::Reclaim { handle: 4096 });
    assert_eq!(s, TransferState::Released);
    assert_eq!(a, TransferAction::Refuse);
}

#[test]
fn a_transfer_that_fails_is_released_at_once() {
    let (s, _) = step(TransferState::Unwrapped, TransferEvent::Allocate { address: u64::MAX });
    assert_eq!(s, TransferState::Allocated { handle: -1 });
    let (s, a) = step(s, TransferEvent::ConstructionFailed);
    assert_eq!(s, TransferState::Aborted);
    assert_eq!(a, TransferAction::Release { address: u64::MAX });
    for event in [
        TransferEvent::Reclaim { handle: -1 },
        TransferEvent::Invoke { handle: -1 },
        TransferEvent::Constructed,
        TransferEvent::ConstructionFailed,
        TransferEvent::Allocate { address: 8 },
    ] {
        assert_eq!(step(s, event), (TransferState::Aborted, TransferAction::Refuse));
    }
}

#[test]
fn events_out_of_turn_are_refused() {
    let unwrapped = TransferState::Unwrapped;
    assert_eq!(step(unwrapped, TransferEvent::Constructed), (unwrapped, TransferAction::Refuse));
    assert_eq!(
        step(unwrapped, TransferEvent::Reclaim { handle: 1 }),
        (unwrapped, TransferAction::Refuse)
    );
    let allocated = TransferState::Allocated { handle: 1 };
    assert_eq!(
        step(allocated, TransferEvent::Reclaim { handle: 1 }),
        (allocated, TransferAction::Refuse)
    );
    assert_eq!(
        step(allocated, TransferEvent::Allocate { address: 2 }),
        (allocated, TransferAction::Refuse)
    );
}

fn resolve(definition: &ClassDefinition, handle: u64) -> Resolved {
    let linking = definition.class_found::<()>(Ok(object(handle))).ok().unwrap();
    definition.class_resolved::<()>(linking, Ok(())).ok().unwrap()
}

#[test]
fn a_class_is_registered_once() {
    let definition = ClassDefinition::new("duchess.Impl$Greeter", "duchess/Impl$Greeter", vec![-54, -2]);
    assert_eq!(definition.human_class_name(), "duchess.Impl$Greeter");
    match definition.register() {
        Registration::Define { jni_class_name, bytecode } => {
            assert_eq!(jni_class_name, "duchess/Impl$Greeter");
            assert_eq!(bytecode, &vec![-54i8, -2]);
        }
        _ => panic!("the class is to be defined"),
    }
    let first = resolve(&definition, 100);
    assert_eq!(first.class.as_raw(), object(100));
    assert!(first.redundant.is_none());
    let second = resolve(&definition, 200);
    assert_eq!(second.class.as_raw(), object(100));
    assert_eq!(second.redundant, Some(object(200)));
    // a caller that comes with the handle that is registered keeps it
    let same = resolve(&definition, 100);
    assert_eq!(same.class.as_raw(), object(100));
    assert!(same.redundant.is_none());
    assert!(matches!(definition.register(), Registration::Registered(c) if c.as_raw() == object(100)));
}

#[test]
fn what_the_cell_holds_decides_who_is_redundant() {
    let kept = ClassDefinition::resolution(object(5), 5);
    assert_eq!(kept.class.as_raw(), object(5));
    assert!(kept.redundant.is_none());
    let lost = ClassDefinition::resolution(object(6), 5);
    assert_eq!(lost.class.as_raw(), object(5));
    assert_eq!(lost.redundant, Some(object(6)));
}

#[test]
fn a_class_is_registered_only_when_its_native_methods_are_linked() {
    let definition = ClassDefinition::new("a.B", "a/B", vec![1]).with_native_methods(
        vec![native("native$a", "(J)V")],
        vec![function("native$a", "(J)V")],
    );
    assert_eq!(definition.java_functions().len(), 1);
    let linking = definition.class_found::<u8>(Ok(object(50))).ok().unwrap();
    assert_eq!(linking.class(), object(50));
    assert_eq!(linking.functions().len(), 1);
    assert_eq!(linking.functions()[0].name, "native$a");
    // linking fails: the class stays unregistered
    let failed = definition.class_resolved::<u8>(linking, Err(Error::Thrown(4))).err().unwrap();
    assert_eq!(failed.class, "a.B");
    assert!(matches!(failed.error, Error::Thrown(4)));
    assert!(matches!(definition.register(), Registration::Define { .. }));
    assert!(matches!(definition.constructor(), ConstructorLookup::Unregistered));
    // linking succeeds: the class is registered
    let linking = definition.class_found::<u8>(Ok(object(51))).ok().unwrap();
    let resolved = definition.class_resolved::<u8>(linking, Ok(())).ok().unwrap();
    assert_eq!(resolved.class.as_raw(), object(51));
    assert!(matches!(definition.register(), Registration::Registered(c) if c.as_raw() == object(51)));
}

#[test]
fn functions_that_the_class_does_not_declare_fail_the_registration() {
    let definition = ClassDefinition::new("a.B", "a/B", vec![1]).with_native_methods(
        vec![native("native$a", "(J)V")],
        vec![function("native$a", "(J)V"), function("native$b", "(J)V")],
    );
    let failed = definition.class_found::<u8>(Ok(object(50))).err().unwrap();
    assert_eq!(failed.class, "a.B");
    assert!(matches!(
        &failed.error,
        Error::JvmInternal(m)
            if m == "the native functions supplied for class `a.B` are not those that it declares"
    ));
    assert!(matches!(definition.register(), Registration::Define { .. }));
    let missing = ClassDefinition::new_external("a.C", "a/C")
        .with_native_methods(vec![native("native$a", "(J)V")], vec![]);
    assert!(missing.class_found::<u8>(Ok(object(50))).is_err());
}

#[test]
fn a_class_that_did_not_resolve_is_not_registered() {
    let definition = ClassDefinition::new_external("a.B", "a/B");
    assert!(matches!(
        definition.register(),
        Registration::Find { jni_class_name } if jni_class_name == "a/B"
    ));
    let failed = definition.class_found::<u8>(Err(Error::Thrown(3))).err().unwrap();
    assert_eq!(failed.class, "a.B");
    assert!(matches!(failed.error, Error::Thrown(3)));
    assert!(matches!(definition.register(), Registration::Find { .. }));
    resolve(&definition, 1);
    assert!(matches!(definition.register(), Registration::Registered(_)));
}

#[test]
fn the_constructor_is_found_once() {
    let definition = ClassDefinition::new_external("a.B", "a/B");
    assert!(matches!(definition.constructor(), ConstructorLookup::Unregistered));
    resolve(&definition, 100);
    assert!(matches!(
        definition.constructor(),
        ConstructorLookup::Find { class: c, descriptor: "(J)V" } if c == object(100)
    ));
    let failed = definition.constructor_resolved::<u8>(Err(Error::NullDeref)).err().unwrap();
    assert_eq!(failed.class, "a.B");
    assert!(matches!(failed.error, Error::NullDeref));
    assert!(matches!(definition.constructor(), ConstructorLookup::Find { .. }));
    let first = MethodPtr::new(7).unwrap();
    let second = MethodPtr::new(8).unwrap();
    assert_eq!(definition.constructor_resolved::<u8>(Ok(first)).ok(), Some(first));
    assert_eq!(definition.constructor_resolved::<u8>(Ok(second)).ok(), Some(first));
    assert!(matches!(definition.constructor(), ConstructorLookup::Found(m) if m == first));
}

#[test]
fn the_constructor_is_looked_up_on_the_registered_class() {
    assert!(matches!(
        ClassDefinition::constructor_lookup(None, None),
        ConstructorLookup::Unregistered
    ));
    assert!(matches!(
        ClassDefinition::constructor_lookup(Some(9), None),
        ConstructorLookup::Find { class, descriptor: "(J)V" } if class == object(9)
    ));
    assert!(matches!(
        ClassDefinition::constructor_lookup(Some(9), Some(4)),
        ConstructorLookup::Found(m) if m.as_u64() == 4
    ));
}

#[test]
fn a_constructed_shim_owns_the_native_value() {
    let definition = ClassDefinition::new_external("a.B", "a/B");
    let mut jvm = entry();
    let result: Result<Local<Object>, Aborted<u8>> =
        definition.instantiate_shim_for(&mut jvm, RawArc::new(4096), Ok(Some(object(55))));
    let local = result.ok().unwrap();
    assert_eq!(local.as_raw(), object(55));
    assert_eq!(local.entry(), jvm.entry());
}

#[test]
fn a_constructor_that_throws_gives_the_native_value_back() {
    let definition = ClassDefinition::new_external("a.B", "a/B");
    let mut jvm = entry();
    let result: Result<Local<Object>, Aborted<u8>> =
        definition.instantiate_shim_for(&mut jvm, RawArc::new(4096), Err(Error::Thrown(9)));
    let aborted = result.err().unwrap();
    assert!(matches!(aborted.error, Error::Thrown(9)));
    assert!(aborted.error.is_thrown());
    assert_eq!(aborted.release.into_raw(), 4096);
}

#[test]
fn a_constructor_that_gives_nothing_is_a_fault_of_the_runtime() {
    let definition = ClassDefinition::new_external("duchess.Impl$Greeter", "duchess/Impl$Greeter");
    let mut jvm = entry();
    let result: Result<Local<Object>, Aborted<u8>> =
        definition.instantiate_shim_for(&mut jvm, RawArc::new(8192), Ok(None));
    let aborted = result.err().unwrap();
    assert!(!aborted.error.is_thrown());
    assert!(matches!(
        &aborted.error,
        Error::JvmInternal(m) if m == "constructor failed creating class `duchess.Impl$Greeter`"
    ));
    assert_eq!(aborted.release.into_raw(), 8192);
}

fn native(name: &str, descriptor: &str) -> NativeMethod {
    NativeMethod { name: name.to_string(), descriptor: descriptor.to_string() }
}

fn function(name: &str, descriptor: &str) -> JavaFunction {
    JavaFunction { name: name.to_string(), descriptor: descriptor.to_string(), pointer: 1 }
}

#[test]
fn linkage_needs_exactly_the_declared_methods() {
    let declared = vec![native("native$a", "(J)V"), native("native$b", "(IJ)I")];
    let exact = vec![function("native$b", "(IJ)I"), function("native$a", "(J)V")];
    assert!(linkage_matches(&declared, &exact));
    let missing = vec![function("native$a", "(J)V")];
    assert!(!linkage_matches(&declared, &missing));
    let extra = vec![
        function("native$a", "(J)V"),
        function("native$b", "(IJ)I"),
        function("native$c", "(J)V"),
    ];
    assert!(!linkage_matches(&declared, &extra));
    let other_descriptor = vec![function("native$a", "(J)V"), function("native$b", "(JJ)I")];
    assert!(!linkage_matches(&declared, &other_descriptor));
    assert!(linkage_matches(&vec![], &vec![]));
    assert!(!linkage_matches(&vec![], &missing));
}

/// The native side of a greeter: it holds the last name.
struct Greeter {
    suffix: String,
}

impl Greeter {
    fn greet(&self, name: Option<&str>) -> Result<String, Error<u8>> {
        match name {
            Some(name) => Ok(format!("{name} {}", self.suffix)),
            None => Err(Error::NullDeref),
        }
    }
}

#[test]
fn a_greeting_comes_back_from_native_code() {
    let greeter = Greeter { suffix: "Bueller".to_string() };
    assert!(matches!(
        complete(greeter.greet(Some("Ferris"))),
        Completion::Return(greeting) if greeting == "Ferris Bueller"
    ));
}

#[test]
fn a_failure_of_native_code_reaches_the_caller_as_an_exception() {
    let greeter = Greeter { suffix: "Bueller".to_string() };
    assert!(matches!(
        complete(greeter.greet(None)),
        Completion::Throw { message } if message == "attempted to deref a null Java object pointer"
    ));
    assert!(matches!(complete::<String, u8>(Err(Error::Thrown(7))), Completion::Rethrow(7)));
    assert!(matches!(
        complete::<String, u8>(Err(Error::JvmInternal("inside".to_string()))),
        Completion::Throw { message } if message == "inside"
    ));
}

#[test]
fn an_error_takes_another_reference_to_what_was_thrown() {
    let thrown: Error<u8> = Error::Thrown(4);
    assert_eq!(thrown.thrown(), Some(&4));
    assert!(matches!(thrown.replace_thrown(Some("kept")), Error::Thrown("kept")));
    let lost: Error<u8> = Error::Thrown(4);
    assert!(matches!(
        lost.replace_thrown::<u16>(None),
        Error::JvmInternal(m) if m == "the runtime gave no reference to what was thrown"
    ));
    let plain: Error<u8> = Error::SliceTooLong(3);
    assert_eq!(plain.thrown(), None);
    assert!(matches!(plain.replace_thrown(Some(1u16)), Error::SliceTooLong(3)));
    assert!(matches!(Error::<u8>::NullDeref.replace_thrown(Some(1u16)), Error::NullDeref));
    assert!(matches!(Error::<u8>::NestedUsage.replace_thrown::<u16>(None), Error::NestedUsage));
    assert!(matches!(
        Error::<u8>::JvmAlreadyExists.replace_thrown::<u16>(None),
        Error::JvmAlreadyExists
    ));
    assert!(matches!(
        Error::<u8>::JvmInternal("x".to_string()).replace_thrown::<u16>(None),
        Error::JvmInternal(m) if m == "x"
    ));
}

#[test]
fn many_callers_load_a_class_once_and_see_one_handle() {
    let definition = ClassDefinition::new("a.B", "a/B", vec![1, 2, 3]);
    let mut loads = 0;
    let mut seen = Vec::new();
    for caller in 0..8u64 {
        let class = match definition.register() {
            Registration::Registered(class) => class,
            Registration::Define { .. } | Registration::Find { .. } => {
                loads += 1;
                resolve(&definition, 1000 + caller).class
            }
        };
        seen.push(class.as_raw().as_u64());
    }
    assert_eq!(loads, 1);
    assert_eq!(seen, vec![1000; 8]);
}

#[test]
fn what_the_record_holds_is_the_runtime() {
    assert!(GlobalJvm::recorded(None).is_none());
    assert_eq!(GlobalJvm::recorded(Some(31)), JvmPtr::new(31));
}
