use image_resize::cleanup::{CleanupReport, CleanupRun, ObjectDeletion};

#[test]
fn empty_run_reports_zero_without_storage() {
    let run = CleanupRun::new(0);
    assert!(!run.needs_storage());
    assert!(run.is_complete());
    assert_eq!(
        run.finish(),
        Ok(CleanupReport {
            candidates: 0,
            deleted: 0,
            failed: 0
        })
    );
}

#[test]
fn missing_objects_still_get_marked_deleted() {
    let mut run = CleanupRun::new(2);
    assert!(run.needs_storage());
    assert!(run.after_object_deletion(ObjectDeletion::Deleted));
    assert!(run.is_awaiting_mark());
    run.after_mark(true);
    assert!(run.after_object_deletion(ObjectDeletion::NotFound));
    run.after_mark(true);
    assert!(run.is_complete());
    assert_eq!(
        run.finish(),
        Ok(CleanupReport {
            candidates: 2,
            deleted: 2,
            failed: 0
        })
    );
}

#[test]
fn any_failure_makes_the_run_fail_with_its_counts() {
    let mut run = CleanupRun::new(3);
    assert!(!run.after_object_deletion(ObjectDeletion::Failed));
    assert!(run.after_object_deletion(ObjectDeletion::Deleted));
    run.after_mark(false);
    assert!(run.after_object_deletion(ObjectDeletion::Deleted));
    run.after_mark(true);
    assert!(run.is_complete());
    let report = run.report();
    assert_eq!((report.candidates, report.deleted, report.failed), (3, 1, 2));
    assert_eq!(
        run.finish(),
        Err(CleanupReport {
            candidates: 3,
            deleted: 1,
            failed: 2
        })
    );
}
