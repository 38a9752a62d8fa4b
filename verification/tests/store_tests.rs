//! The persistence gateway: inserts, updates, cascading deletes, reads.

use howto_upload::errors::StoreError;
use howto_upload::errors::UploadError;
use howto_upload::handlers::all_images;
use howto_upload::handlers::create_howto;
use howto_upload::handlers::create_step;
use howto_upload::handlers::howto_page;
use howto_upload::handlers::update_howto;
use howto_upload::store::Store;

#[test]
fn ids_are_generated_in_order() {
    let mut store = Store::new();
    let a = store.insert_instruction(String::from("first")).unwrap();
    let b = store.insert_instruction(String::from("second")).unwrap();
    assert_eq!(a.id, 1);
    assert_eq!(b.id, 2);
    let s = store.insert_step(String::from("step"), None, None).unwrap();
    assert_eq!(s.id, 1);
}

#[test]
fn join_insert_requires_both_rows() {
    let mut store = Store::new();
    let ins = store.insert_instruction(String::from("parent")).unwrap();
    let st = store.insert_step(String::from("child"), None, None).unwrap();
    assert_eq!(
        store.insert_instruction_step(ins.id, 999, 0),
        Err(StoreError::ForeignKeyViolation)
    );
    assert_eq!(
        store.insert_instruction_step(999, st.id, 0),
        Err(StoreError::ForeignKeyViolation)
    );
    let j = store.insert_instruction_step(ins.id, st.id, 0).unwrap();
    assert_eq!(j.instruction_id, ins.id);
    assert_eq!(j.step_id, st.id);
    assert_eq!(j.position, 0);
}

#[test]
fn create_step_with_join_is_atomic() {
    let mut store = Store::new();
    // no parent: neither the step row nor the join row may appear
    let r = store.create_step_with_join(42, String::from("orphan"), None, None, 0);
    assert_eq!(r, Err(StoreError::ForeignKeyViolation));
    assert_eq!(store.steps.len(), 0);
    assert_eq!(store.joins.len(), 0);
    assert_eq!(store.next_step_id, 1);

    let ins = store.insert_instruction(String::from("parent")).unwrap();
    let (st, j) = store
        .create_step_with_join(ins.id, String::from("child"), Some(30), None, 0)
        .unwrap();
    assert_eq!(st.id, 1);
    assert_eq!(st.seconds, Some(30));
    assert_eq!(j.step_id, st.id);
    assert_eq!(store.steps.len(), 1);
    assert_eq!(store.joins.len(), 1);
}

#[test]
fn update_step_changes_fields_and_reports_missing_rows() {
    let mut store = Store::new();
    let st = store
        .insert_step(String::from("old title"), Some(10), Some(String::from("pic.jpg")))
        .unwrap();
    let updated = store.update_step(st.id, String::from("new title"), Some(20)).unwrap();
    assert_eq!(updated.id, st.id);
    assert_eq!(updated.title, "new title");
    assert_eq!(updated.seconds, Some(20));
    // the image file name survives a field update
    assert_eq!(updated.image_filename, Some(String::from("pic.jpg")));
    assert_eq!(store.update_step(999, String::from("x"), None), Err(StoreError::NotFound));
}

#[test]
fn delete_step_cascades_and_returns_filename() {
    let mut store = Store::new();
    let ins = store.insert_instruction(String::from("parent")).unwrap();
    let (st, _) = store
        .create_step_with_join(
            ins.id,
            String::from("child"),
            None,
            Some(String::from("img.jpg")),
            0,
        )
        .unwrap();
    let (keep, _) = store
        .create_step_with_join(ins.id, String::from("kept"), None, None, 0)
        .unwrap();
    let prior = store.delete_step_cascade(st.id).unwrap();
    assert_eq!(prior, Some(String::from("img.jpg")));
    assert_eq!(store.steps.len(), 1);
    assert_eq!(store.steps[0].id, keep.id);
    assert_eq!(store.joins.len(), 1);
    assert_eq!(store.joins[0].step_id, keep.id);
    assert_eq!(store.delete_step_cascade(st.id), Err(StoreError::NotFound));
}

#[test]
fn delete_instruction_cascades_join_rows() {
    let mut store = Store::new();
    let a = store.insert_instruction(String::from("a")).unwrap();
    let b = store.insert_instruction(String::from("b")).unwrap();
    store.create_step_with_join(a.id, String::from("s1"), None, None, 0).unwrap();
    store.create_step_with_join(b.id, String::from("s2"), None, None, 0).unwrap();
    store.delete_instruction_cascade(a.id).unwrap();
    assert_eq!(store.instructions.len(), 1);
    assert_eq!(store.instructions[0].id, b.id);
    assert_eq!(store.joins.len(), 1);
    assert_eq!(store.joins[0].instruction_id, b.id);
    // step rows themselves stay
    assert_eq!(store.steps.len(), 2);
    assert_eq!(store.delete_instruction_cascade(a.id), Err(StoreError::NotFound));
}

#[test]
fn howto_page_lists_steps_in_id_order() {
    let mut store = Store::new();
    let ins = store.insert_instruction(String::from("recipe")).unwrap();
    let other = store.insert_instruction(String::from("other")).unwrap();
    let (s1, _) = store
        .create_step_with_join(ins.id, String::from("first"), None, None, 0)
        .unwrap();
    store.create_step_with_join(other.id, String::from("foreign"), None, None, 0).unwrap();
    let (s3, _) = store
        .create_step_with_join(ins.id, String::from("second"), None, None, 0)
        .unwrap();
    let (page_ins, steps) = howto_page(&store, ins.id).unwrap();
    assert_eq!(page_ins.title, "recipe");
    assert_eq!(steps.len(), 2);
    assert_eq!(steps[0].id, s1.id);
    assert_eq!(steps[1].id, s3.id);
    assert!(howto_page(&store, 999).is_none());
}

#[test]
fn create_and_update_howto_validate_titles() {
    let mut store = Store::new();
    assert!(matches!(
        create_howto(&mut store, "   "),
        Err(UploadError::ValidationError(_))
    ));
    assert_eq!(store.instructions.len(), 0);
    let ins = create_howto(&mut store, "  Make tea  ").unwrap();
    assert_eq!(ins.title, "Make tea");
    let upd = update_howto(&mut store, ins.id, " Brew tea ").unwrap();
    assert_eq!(upd.title, "Brew tea");
    assert_eq!(store.instructions[0].title, "Brew tea");
    assert!(matches!(
        update_howto(&mut store, 999, "x"),
        Err(UploadError::DatabaseError(StoreError::NotFound))
    ));
    let long = "y".repeat(81);
    assert!(matches!(
        update_howto(&mut store, ins.id, &long),
        Err(UploadError::ValidationError(_))
    ));
    assert_eq!(store.instructions[0].title, "Brew tea");
}

#[test]
fn create_step_handler_is_atomic_and_validated() {
    let mut store = Store::new();
    let ins = create_howto(&mut store, "parent").unwrap();
    assert!(matches!(
        create_step(&mut store, ins.id, " ", 5),
        Err(UploadError::ValidationError(_))
    ));
    assert!(matches!(
        create_step(&mut store, 999, "fine", 5),
        Err(UploadError::DatabaseError(StoreError::ForeignKeyViolation))
    ));
    assert_eq!(store.steps.len(), 0);
    let st = create_step(&mut store, ins.id, " Chop onions ", 90).unwrap();
    assert_eq!(st.title, "Chop onions");
    assert_eq!(st.seconds, Some(90));
    assert_eq!(st.image_filename, None);
    assert_eq!(store.joins.len(), 1);
    assert_eq!(store.joins[0].position, 0);
}

#[test]
fn all_images_renders_escaped_tags_in_order() {
    let mut store = Store::new();
    store.insert_step(String::from("one"), None, Some(String::from("a.jpg"))).unwrap();
    store.insert_step(String::from("two"), None, None).unwrap();
    store
        .insert_step(String::from("three"), None, Some(String::from("b<\"x\">&.jpg")))
        .unwrap();
    let html = all_images(&store);
    assert_eq!(
        html,
        "<img src=\"/img/a.jpg\"><img src=\"/img/b&lt;&quot;x&quot;&gt;&amp;.jpg\">"
    );
}
