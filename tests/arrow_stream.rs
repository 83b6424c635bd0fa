use chdb_rust::arrow_stream::{ArrowArray, ArrowSchema, ArrowStream};
use chdb_rust::connection::{Connection, TableAction, STATUS_SUCCESS};
use chdb_rust::error::Error;

const HANDLE: usize = 0x1000;
const SESSION: usize = 0x2000;
const FAILED: u32 = 1;

fn open_connection() -> Connection {
    Connection::open_in_memory()
        .expect("Failed to create connection")
        .finish(HANDLE, SESSION)
        .expect("Failed to create connection")
}

fn assert_send<T: Send + 'static>(value: T) -> T {
    value
}

#[test]
fn test_arrow_stream_from_raw() {
    let stream = ArrowStream::from_raw(0);
    assert_eq!(stream.as_raw(), 0);
}

#[test]
fn test_arrow_schema_from_raw() {
    let schema = ArrowSchema::from_raw(0);
    assert_eq!(schema.as_raw(), 0);
}

#[test]
fn test_arrow_array_from_raw() {
    let array = ArrowArray::from_raw(0);
    assert_eq!(array.as_raw(), 0);
}

#[test]
fn test_arrow_stream_wrapper() {
    let stream = ArrowStream::from_raw(0);
    assert_eq!(stream.as_raw(), 0);

    let stream2 = stream;
    assert_eq!(stream.as_raw(), stream2.as_raw());
}

#[test]
fn test_arrow_schema_wrapper() {
    let schema = ArrowSchema::from_raw(0);
    assert_eq!(schema.as_raw(), 0);

    let schema2 = schema;
    assert_eq!(schema.as_raw(), schema2.as_raw());
}

#[test]
fn test_arrow_array_wrapper() {
    let array = ArrowArray::from_raw(0);
    assert_eq!(array.as_raw(), 0);

    let array2 = array;
    assert_eq!(array.as_raw(), array2.as_raw());
}

#[test]
fn test_register_arrow_stream_invalid_table_name() {
    let conn = open_connection();
    let null_stream = ArrowStream::from_raw(0);

    let result = conn.register_arrow_stream("table\0name", &null_stream);
    assert!(result.is_err());
    match result {
        Err(Error::Nul(_)) => {}
        Err(e) => panic!("Expected Nul error, got {:?}", e),
        Ok(_) => panic!("Expected error for null byte in table name"),
    }
}

#[test]
fn test_register_arrow_stream_with_null_handle() {
    let conn = open_connection();
    let null_stream = ArrowStream::from_raw(0);

    let request = conn
        .register_arrow_stream("test_table", &null_stream)
        .expect("a null handle is passed on unchecked");
    assert_eq!(request.handle(), HANDLE);
    match request.action() {
        TableAction::RegisterStream(s) => assert_eq!(s.as_raw(), 0),
        other => panic!("unexpected action {:?}", other),
    }
    match request.finish(FAILED) {
        Err(Error::QueryError(_)) => {}
        other => panic!("unexpected outcome {:?}", other),
    }
}

#[test]
fn test_register_arrow_array_invalid_table_name() {
    let conn = open_connection();
    let null_schema = ArrowSchema::from_raw(0);
    let null_array = ArrowArray::from_raw(0);

    let result = conn.register_arrow_array("table\0name", &null_schema, &null_array);
    assert!(result.is_err());
    match result {
        Err(Error::Nul(_)) => {}
        Err(e) => panic!("Expected Nul error, got {:?}", e),
        Ok(_) => panic!("Expected error for null byte in table name"),
    }
}

#[test]
fn test_register_arrow_array_with_null_handles() {
    let conn = open_connection();
    let null_schema = ArrowSchema::from_raw(0);
    let null_array = ArrowArray::from_raw(0);

    let request = conn
        .register_arrow_array("test_table", &null_schema, &null_array)
        .expect("null handles are passed on unchecked");
    match request.action() {
        TableAction::RegisterArray(s, a) => {
            assert_eq!(s.as_raw(), 0);
            assert_eq!(a.as_raw(), 0);
        }
        other => panic!("unexpected action {:?}", other),
    }
    assert!(request.finish(STATUS_SUCCESS).is_ok());
}

#[test]
fn test_unregister_arrow_table_invalid_table_name() {
    let conn = open_connection();

    let result = conn.unregister_arrow_table("table\0name");
    assert!(result.is_err());
    match result {
        Err(Error::Nul(_)) => {}
        Err(e) => panic!("Expected Nul error, got {:?}", e),
        Ok(_) => panic!("Expected error for null byte in table name"),
    }
}

#[test]
fn test_unregister_nonexistent_table() {
    let conn = open_connection();

    for status in [STATUS_SUCCESS, FAILED] {
        let request = conn
            .unregister_arrow_table("nonexistent_table_12345")
            .expect("any name without a nul byte is passed on");
        match request.finish(status) {
            Ok(_) => assert_eq!(status, STATUS_SUCCESS),
            Err(Error::QueryError(_)) => assert_eq!(status, FAILED),
            Err(e) => panic!("Unexpected error type: {:?}", e),
        }
    }
}

#[test]
fn test_arrow_stream_send() {
    let stream = ArrowStream::from_raw(0x40);
    let moved = assert_send(stream);
    assert_eq!(moved.as_raw(), 0x40);
}

#[test]
fn test_arrow_schema_send() {
    let schema = ArrowSchema::from_raw(0x48);
    let moved = assert_send(schema);
    assert_eq!(moved.as_raw(), 0x48);
}

#[test]
fn test_arrow_array_send() {
    let array = ArrowArray::from_raw(0x50);
    let moved = assert_send(array);
    assert_eq!(moved.as_raw(), 0x50);
}

#[test]
fn test_arrow_stream_valid_table_names() {
    let conn = open_connection();
    let null_stream = ArrowStream::from_raw(0);

    let valid_names = [
        "simple_table",
        "table_with_underscores",
        "TableWithCamelCase",
        "table123",
        "a",
        "very_long_table_name_with_many_characters_that_should_still_be_valid",
    ];

    for name in &valid_names {
        let request = conn
            .register_arrow_stream(name, &null_stream)
            .expect("a valid name is not refused");
        let mut expected = name.as_bytes().to_vec();
        expected.push(0);
        assert_eq!(request.table().as_bytes(), &expected);
    }
}

#[test]
fn test_arrow_array_valid_table_names() {
    let conn = open_connection();
    let null_schema = ArrowSchema::from_raw(0);
    let null_array = ArrowArray::from_raw(0);

    let valid_names = [
        "simple_table",
        "table_with_underscores",
        "TableWithCamelCase",
        "table123",
    ];

    for name in &valid_names {
        let request = conn
            .register_arrow_array(name, &null_schema, &null_array)
            .expect("a valid name is not refused");
        let mut expected = name.as_bytes().to_vec();
        expected.push(0);
        assert_eq!(request.table().as_bytes(), &expected);
    }
}

#[test]
fn test_connection_methods_consistency() {
    let conn = open_connection();
    let null_stream = ArrowStream::from_raw(0);
    let null_schema = ArrowSchema::from_raw(0);
    let null_array = ArrowArray::from_raw(0);

    let result1 = conn.register_arrow_stream("test\0", &null_stream);
    let result2 = conn.register_arrow_array("test\0", &null_schema, &null_array);
    let result3 = conn.unregister_arrow_table("test\0");

    assert!(result1.is_err());
    assert!(result2.is_err());
    assert!(result3.is_err());

    match (result1, result2, result3) {
        (Err(Error::Nul(_)), Err(Error::Nul(_)), Err(Error::Nul(_))) => {}
        _ => panic!("All should return Nul errors for null bytes"),
    }
}
