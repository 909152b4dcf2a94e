use ocl::error::OclError;
use ocl::handles::{CommandQueue, Event, Mem, UserEvent};
use ocl::mapped_mem::{
    mapped_mem_ptr, mapped_mem_set_unmapped, CompletionPolicy, DropDisposition, MappedMem,
};

fn region(unmap_event: Option<UserEvent>, policy: CompletionPolicy) -> MappedMem<u32> {
    MappedMem::new(0x4000, 64, unmap_event, Mem::new(0x51), CommandQueue::new(0x61), policy)
}

#[test]
fn new_region_is_mapped() {
    let mm = region(None, CompletionPolicy::Eager);
    assert!(!mm.is_unmapped());
    assert_eq!(mapped_mem_ptr(&mm), 0x4000);
    assert_eq!(mm.as_slice_parts(), (0x4000, 64));
}

#[test]
fn unmap_hands_out_the_enqueue_command() {
    let mm = region(None, CompletionPolicy::Eager);
    let cmd = mm.unmap(None, None, false).unwrap();
    assert_eq!(cmd.queue, CommandQueue::new(0x61));
    assert_eq!(cmd.buffer, Mem::new(0x51));
    assert_eq!(cmd.mem_ptr, 0x4000);
    assert!(cmd.wait_list.is_empty());
    assert!(!cmd.request_event);
}

#[test]
fn unmap_passes_the_wait_list_through() {
    let mm = region(None, CompletionPolicy::Eager);
    let wait = vec![Event::new(0xA1), Event::new(0xA2)];
    let cmd = mm.unmap(None, Some(&wait), false).unwrap();
    assert_eq!(cmd.wait_list, wait);
}

#[test]
fn unmap_uses_queue_override() {
    let mm = region(None, CompletionPolicy::Eager);
    let other = CommandQueue::new(0x77);
    let cmd = mm.unmap(Some(&other), None, false).unwrap();
    assert_eq!(cmd.queue, other);
}

#[test]
fn unmap_requests_event_for_registered_completion() {
    let mm = region(Some(UserEvent::new(0x99)), CompletionPolicy::Deferred);
    let cmd = mm.unmap(None, None, false).unwrap();
    assert!(cmd.request_event);
}

#[test]
fn unmap_requests_event_on_caller_demand() {
    let mm = region(None, CompletionPolicy::Eager);
    let cmd = mm.unmap(None, None, true).unwrap();
    assert!(cmd.request_event);
}

#[test]
fn second_unmap_is_contract_violation() {
    let mut mm = region(None, CompletionPolicy::Eager);
    let _cmd = mm.unmap(None, None, false).unwrap();
    let returned = mm.unmap_enqueued(None).unwrap();
    assert!(returned.is_none());
    assert!(mm.is_unmapped());
    match mm.unmap(None, None, false) {
        Err(OclError::ContractViolation(m)) => {
            assert_eq!(m, "MappedMem::unmap: Already unmapped.");
        }
        other => panic!("expected a contract violation, got {:?}", other),
    }
}

#[test]
fn unmap_enqueued_validates_the_new_event() {
    let mut mm = region(None, CompletionPolicy::Eager);
    let _cmd = mm.unmap(None, None, true).unwrap();
    let returned = mm.unmap_enqueued(Some(Event::new(0x1234))).unwrap();
    assert_eq!(returned, Some(Event::new(0x1234)));
    assert!(mm.is_unmapped());
}

#[test]
fn unmap_enqueued_rejects_null_event_but_stays_unmapped() {
    let mut mm = region(None, CompletionPolicy::Eager);
    let _cmd = mm.unmap(None, None, true).unwrap();
    match mm.unmap_enqueued(Some(Event::null())) {
        Err(OclError::Native { .. }) => {}
        other => panic!("expected a native error, got {:?}", other),
    }
    assert!(mm.is_unmapped());
}

#[test]
fn event_trigger_handed_out_once() {
    let mut mm = region(Some(UserEvent::new(0x99)), CompletionPolicy::Deferred);
    let _cmd = mm.unmap(None, None, false).unwrap();
    let new_event = mm.unmap_enqueued(Some(Event::new(0x1234))).unwrap().unwrap();
    let trigger = mm.register_event_trigger(&new_event).unwrap();
    assert_eq!(trigger.event, new_event);
    assert_eq!(trigger.user_data, 0x99);
    match mm.register_event_trigger(&new_event) {
        Err(OclError::ContractViolation(m)) => {
            assert_eq!(m, "Callback already set.");
        }
        other => panic!("expected a contract violation, got {:?}", other),
    }
}

#[test]
fn get_unmap_event_reports_registration() {
    let without = region(None, CompletionPolicy::Eager);
    assert!(without.get_unmap_event().is_none());
    let with = region(Some(UserEvent::new(0x99)), CompletionPolicy::Deferred);
    assert_eq!(with.get_unmap_event(), Some(&UserEvent::new(0x99)));
}

#[test]
fn drop_disposition_follows_state_and_policy() {
    let mut eager = region(None, CompletionPolicy::Eager);
    assert_eq!(eager.drop_disposition(), DropDisposition::Violation);
    let _cmd = eager.unmap(None, None, false).unwrap();
    eager.unmap_enqueued(None).unwrap();
    assert_eq!(eager.drop_disposition(), DropDisposition::AlreadyUnmapped);

    let deferred = region(None, CompletionPolicy::Deferred);
    assert_eq!(deferred.drop_disposition(), DropDisposition::UnmapBestEffort);
}

#[test]
fn set_unmapped_flag_directly() {
    let mut mm = region(None, CompletionPolicy::Eager);
    mapped_mem_set_unmapped(&mut mm);
    assert!(mm.is_unmapped());
}

#[test]
fn event_validate_rejects_null() {
    assert_eq!(Event::new(7).validate(), Ok(Event::new(7)));
    match Event::null().validate() {
        Err(OclError::Native { status, message }) => {
            assert_eq!(status, 0);
            assert_eq!(message, "Event::validate: Null event.");
        }
        other => panic!("expected a native error, got {:?}", other),
    }
    assert!(Event::null().is_null());
    assert!(!Event::new(7).is_null());
}
