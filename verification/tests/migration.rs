use ic_canister_stable_storage::migration::{
    convert_all, deserialize_default_if_gte_version, deserialize_default_if_lt_version,
    deserialize_if_lt_version_or_else, deserialize_into_collection_if_lt_version,
    deserialize_into_if_lt_version, deserialize_into_primitive_collection_if_lt_version,
    deserialize_into_primitive_if_lt_version, deserialize_into_primitive_option_if_lt_version,
    deserialize_into_string_collection_if_lt_version, deserialize_try_into_if_lt_version,
    deserialize_with_debug_tag, get_stored_schema_version, set_stored_schema_version,
    skip_serializing_if_gte_version, tagged,
    MigrationContext, MigrationError,
};

fn context(version: u64) -> MigrationContext {
    MigrationContext::new(version)
}

fn unwrap_error<T: std::fmt::Debug>(result: Result<T, MigrationError<String>>) -> (u32, String) {
    let error = result.unwrap_err();
    (error.debug_tag, error.source)
}

#[test]
fn the_stored_version_is_what_was_set() {
    let mut context = MigrationContext::default();
    assert_eq!(get_stored_schema_version(&context), 0);
    set_stored_schema_version(&mut context, 7);
    assert_eq!(get_stored_schema_version(&context), 7);
    set_stored_schema_version(&mut context, 2);
    assert_eq!(get_stored_schema_version(&context), 2);
    assert_eq!(get_stored_schema_version(&MigrationContext::new(u64::MAX)), u64::MAX);
}

#[test]
fn a_field_added_at_a_version_is_default_before_it() {
    // stored before the field existed: nothing is decoded
    let result = deserialize_default_if_lt_version::<5, 1, i64, _, String, _>(
        &context(4),
        "input",
        |_: &str| -> Result<i64, String> { panic!("must not decode") },
    );
    assert_eq!(result.unwrap(), 0);
    // stored at the version or later: the field is decoded
    for version in [5, 6] {
        let result = deserialize_default_if_lt_version::<5, 1, i64, _, String, _>(
            &context(version),
            "12",
            |d: &str| d.parse::<i64>().map_err(|e| e.to_string()),
        );
        assert_eq!(result.unwrap(), 12);
    }
    let result = deserialize_default_if_lt_version::<5, 9, i64, _, String, _>(
        &context(5),
        "x",
        |_: &str| Err("boom".to_owned()),
    );
    assert_eq!(unwrap_error(result), (9, "boom".to_owned()));
}

#[test]
fn a_field_dropped_at_a_version_is_default_from_it_on() {
    for version in [5, 6] {
        let result = deserialize_default_if_gte_version::<5, 1, String, _, String, _>(
            &context(version),
            "input",
            |_: &str| -> Result<String, String> { panic!("must not decode") },
        );
        assert_eq!(result.unwrap(), "");
    }
    let result = deserialize_default_if_gte_version::<5, 1, String, _, String, _>(
        &context(4),
        "kept",
        |d: &str| Ok(d.to_owned()),
    );
    assert_eq!(result.unwrap(), "kept");
    let result = deserialize_default_if_gte_version::<5, 3, String, _, String, _>(
        &context(0),
        "kept",
        |_: &str| Err("bad".to_owned()),
    );
    assert_eq!(unwrap_error(result), (3, "bad".to_owned()));
}

#[test]
fn the_version_picks_the_decoder() {
    let old = |d: u8| -> Result<u32, String> { Ok(d as u32 + 1000) };
    let new = |d: u8| -> Result<u32, String> { Ok(d as u32) };
    assert_eq!(
        deserialize_if_lt_version_or_else::<2, 0, u32, u8, String, _, _>(&context(1), 7, old, new)
            .unwrap(),
        1007
    );
    assert_eq!(
        deserialize_if_lt_version_or_else::<2, 0, u32, u8, String, _, _>(&context(2), 7, old, new)
            .unwrap(),
        7
    );
    let failing = |_: u8| -> Result<u32, String> { Err("old failed".to_owned()) };
    let result =
        deserialize_if_lt_version_or_else::<2, 4, u32, u8, String, _, _>(&context(0), 7, failing, new);
    assert_eq!(unwrap_error(result), (4, "old failed".to_owned()));
    let result =
        deserialize_if_lt_version_or_else::<2, 4, u32, u8, String, _, _>(&context(2), 7, old, failing);
    assert_eq!(unwrap_error(result), (4, "old failed".to_owned()));
}

#[test]
fn errors_are_marked_with_the_tag_of_the_field() {
    let result = deserialize_with_debug_tag::<42, u8, _, String, _>((), |_| Err("nope".to_owned()));
    let error = result.unwrap_err();
    assert_eq!(error.debug_tag, 42);
    assert_eq!(error.message(&error.source), "Migration error. Tag 42 Error: nope");
    let result = deserialize_with_debug_tag::<42, u8, _, String, _>((), |_| Ok(3));
    assert_eq!(result.unwrap(), 3);
    assert_eq!(tagged(Ok::<u8, String>(1), 5).unwrap(), 1);
    let error = tagged(Err::<u8, &str>("e"), 4294967295).unwrap_err();
    assert_eq!(error.message("e"), "Migration error. Tag 4294967295 Error: e");
    let error = tagged(Err::<u8, &str>("e"), 0).unwrap_err();
    assert_eq!(error.message(""), "Migration error. Tag 0 Error: ");
}

#[test]
fn a_widened_number_is_converted_below_the_version() {
    let old = |d: &str| d.parse::<u32>().map_err(|e| e.to_string());
    let new = |d: &str| d.parse::<u64>().map_err(|e| e.to_string());
    let widen = |n: u32| n as u64;
    assert_eq!(
        deserialize_into_primitive_if_lt_version::<3, 0, u32, u64, _, String, _, _, _>(
            &context(2),
            "4000000000",
            old,
            widen,
            new
        )
        .unwrap(),
        4000000000
    );
    let result = deserialize_into_primitive_if_lt_version::<3, 6, u32, u64, _, String, _, _, _>(
        &context(2),
        "5000000000",
        old,
        widen,
        new,
    );
    assert_eq!(result.unwrap_err().debug_tag, 6);
    assert_eq!(
        deserialize_into_primitive_if_lt_version::<3, 0, u32, u64, _, String, _, _, _>(
            &context(3),
            "5000000000",
            old,
            widen,
            new
        )
        .unwrap(),
        5000000000
    );
}

#[test]
fn a_collection_of_numbers_is_converted_item_by_item() {
    let old = |d: Vec<u8>| -> Result<Vec<u8>, String> { Ok(d) };
    let new = |d: Vec<u8>| -> Result<Vec<i32>, String> { Ok(d.iter().map(|b| -(*b as i32)).collect()) };
    let widen = |b: u8| b as i32 * 2;
    assert_eq!(
        deserialize_into_primitive_collection_if_lt_version::<3, 0, u8, i32, _, String, _, _, _>(
            &context(2),
            vec![1, 2, 3],
            old,
            widen,
            new
        )
        .unwrap(),
        vec![2, 4, 6]
    );
    assert_eq!(
        deserialize_into_primitive_collection_if_lt_version::<3, 0, u8, i32, _, String, _, _, _>(
            &context(3),
            vec![1, 2, 3],
            old,
            widen,
            new
        )
        .unwrap(),
        vec![-1, -2, -3]
    );
    assert_eq!(convert_all(vec![1u8, 2, 3], &widen), vec![2, 4, 6]);
    assert_eq!(convert_all(Vec::<u8>::new(), &widen), Vec::<i32>::new());
}

#[test]
fn an_optional_number_is_converted_where_it_is_there() {
    let old = |d: Option<u8>| -> Result<Option<u8>, String> { Ok(d) };
    let new = |_: Option<u8>| -> Result<Option<u64>, String> { Ok(Some(99)) };
    let widen = |b: u8| b as u64;
    assert_eq!(
        deserialize_into_primitive_option_if_lt_version::<3, 0, u8, u64, _, String, _, _, _>(
            &context(0),
            Some(7),
            old,
            widen,
            new
        )
        .unwrap(),
        Some(7)
    );
    assert_eq!(
        deserialize_into_primitive_option_if_lt_version::<3, 0, u8, u64, _, String, _, _, _>(
            &context(0),
            None,
            old,
            widen,
            new
        )
        .unwrap(),
        None
    );
    assert_eq!(
        deserialize_into_primitive_option_if_lt_version::<3, 0, u8, u64, _, String, _, _, _>(
            &context(3),
            None,
            old,
            widen,
            new
        )
        .unwrap(),
        Some(99)
    );
}

#[test]
fn values_are_turned_into_the_new_type_below_the_version() {
    let old = |d: u8| -> Result<u8, String> { Ok(d) };
    let new = |d: u8| -> Result<u64, String> { Ok(d as u64 + 100) };
    assert_eq!(
        deserialize_into_if_lt_version::<3, 0, u8, u64, _, String, _, _>(&context(2), 5, old, new)
            .unwrap(),
        5
    );
    assert_eq!(
        deserialize_into_if_lt_version::<3, 0, u8, u64, _, String, _, _>(&context(3), 5, old, new)
            .unwrap(),
        105
    );
    let old_items = |d: Vec<u8>| -> Result<Vec<u8>, String> { Ok(d) };
    let new_items = |_: Vec<u8>| -> Result<Vec<u64>, String> { Ok(vec![]) };
    assert_eq!(
        deserialize_into_collection_if_lt_version::<3, 0, u8, u64, _, String, _, _>(
            &context(2),
            vec![3, 1, 2],
            old_items,
            new_items
        )
        .unwrap(),
        vec![3, 1, 2]
    );
    assert_eq!(
        deserialize_into_collection_if_lt_version::<3, 0, u8, u64, _, String, _, _>(
            &context(4),
            vec![3, 1, 2],
            old_items,
            new_items
        )
        .unwrap(),
        Vec::<u64>::new()
    );
    let failing = |_: Vec<u8>| -> Result<Vec<u8>, String> { Err("short".to_owned()) };
    let result = deserialize_into_collection_if_lt_version::<3, 8, u8, u64, _, String, _, _>(
        &context(2),
        vec![],
        failing,
        new_items,
    );
    assert_eq!(unwrap_error(result), (8, "short".to_owned()));
}

#[test]
fn a_conversion_that_fails_is_an_error_of_the_field() {
    let old = |d: i64| -> Result<i64, String> { Ok(d) };
    let new = |d: i64| -> Result<u8, String> { Ok(d as u8) };
    let narrow = |n: i64| u8::try_from(n).map_err(|e| e.to_string());
    assert_eq!(
        deserialize_try_into_if_lt_version::<3, 0, i64, u8, _, String, _, _, _>(
            &context(2),
            200,
            old,
            narrow,
            new
        )
        .unwrap(),
        200
    );
    let result = deserialize_try_into_if_lt_version::<3, 11, i64, u8, _, String, _, _, _>(
        &context(2),
        300,
        old,
        narrow,
        new,
    );
    assert_eq!(result.unwrap_err().debug_tag, 11);
    assert_eq!(
        deserialize_try_into_if_lt_version::<3, 0, i64, u8, _, String, _, _, _>(
            &context(3),
            7,
            old,
            narrow,
            new
        )
        .unwrap(),
        7
    );
}

#[test]
fn a_collection_is_turned_into_strings_below_the_version() {
    let old = |d: Vec<u32>| -> Result<Vec<u32>, String> { Ok(d) };
    let new = |_: Vec<u32>| -> Result<Vec<String>, String> { Ok(vec!["new".to_owned()]) };
    let text = |n: u32| n.to_string();
    assert_eq!(
        deserialize_into_string_collection_if_lt_version::<3, 0, u32, _, String, _, _, _>(
            &context(2),
            vec![10, 2],
            old,
            text,
            new
        )
        .unwrap(),
        vec!["10".to_owned(), "2".to_owned()]
    );
    assert_eq!(
        deserialize_into_string_collection_if_lt_version::<3, 0, u32, _, String, _, _, _>(
            &context(3),
            vec![10, 2],
            old,
            text,
            new
        )
        .unwrap(),
        vec!["new".to_owned()]
    );
}

#[test]
fn a_dropped_field_is_written_below_its_version_only() {
    assert!(!skip_serializing_if_gte_version::<5>(&context(4)));
    assert!(skip_serializing_if_gte_version::<5>(&context(5)));
    assert!(skip_serializing_if_gte_version::<5>(&context(6)));
    assert!(skip_serializing_if_gte_version::<0>(&context(0)));
    // what is written under a version is read back under it
    for version in [4, 5] {
        let written: Vec<u8> =
            if skip_serializing_if_gte_version::<5>(&context(version)) { vec![] } else { vec![7] };
        let read = deserialize_default_if_gte_version::<5, 0, u8, _, String, _>(
            &context(version),
            written.clone(),
            |d: Vec<u8>| d.first().copied().ok_or("nothing was written".to_owned()),
        );
        assert_eq!(read.unwrap(), if version < 5 { 7 } else { 0 });
    }
}
