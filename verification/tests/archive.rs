use std::cell::Cell;

use otf2::archive::Archive;
use otf2::archive::ArchiveBuilder;
use otf2::archive::ArchiveBuilderError;
use otf2::archive::ArchiveError;
use otf2::archive::ArchiveOpenArgs;
use otf2::archive::Compression;
use otf2::archive::Mode;
use otf2::archive::Substrate;
use otf2::error::Status;
use otf2::native::ErrorCode;
use otf2::native::OTF2_ERROR_EACCES;
use otf2::native::OTF2_SUCCESS;

#[test]
fn a_builder_settles_on_the_defaults_for_what_it_was_not_told() {
    let mut builder = ArchiveBuilder::default();
    builder.read();
    assert_eq!(
        builder.open_args(b"/traces/serial_512.15132", b"serial_512.15132"),
        Ok(ArchiveOpenArgs {
            mode: Mode::Read,
            chunk_size_events: 1024 * 1024,
            chunk_size_defs: 4 * 1024 * 1024,
            substrate: Substrate::Posix,
            compression: Compression::Nothing
        })
    );
    builder
        .readwrite()
        .chunk_size_events(17)
        .chunk_size_defs(18)
        .substrate(Substrate::Sion)
        .compression(Compression::Zlib);
    assert_eq!(
        builder.open_args(b"p", b"n"),
        Ok(ArchiveOpenArgs {
            mode: Mode::Modify,
            chunk_size_events: 17,
            chunk_size_defs: 18,
            substrate: Substrate::Sion,
            compression: Compression::Zlib
        })
    );
    builder.write();
    assert_eq!(builder.mode, Some(Mode::Write));
}

#[test]
fn the_checks_of_the_arguments_come_in_order() {
    let builder = ArchiveBuilder::default();
    assert_eq!(
        builder.open_args(b"p", b"n"),
        Err(ArchiveBuilderError::MissingField("mode"))
    );
    assert_eq!(
        builder.open_args(b"p", b"n\0"),
        Err(ArchiveBuilderError::NullByte {
            field: "name",
            pos: 1
        })
    );
    assert_eq!(
        builder.open_args(b"\0p", b"n\0"),
        Err(ArchiveBuilderError::NullByte {
            field: "path",
            pos: 0
        })
    );
    assert_eq!(
        ArchiveBuilderError::null_byte("path", 3),
        ArchiveBuilderError::NullByte {
            field: "path",
            pos: 3
        }
    );
    assert_eq!(
        ArchiveBuilderError::open_returned_null(String::from("n"), String::from("p")),
        ArchiveBuilderError::OpenReturnedNull {
            name: String::from("n"),
            path: String::from("p")
        }
    );
}

#[test]
fn an_archive_that_did_not_open_names_what_was_asked_for() {
    let opened = Archive::opened(
        0,
        |_ptr: usize| ErrorCode(OTF2_SUCCESS),
        String::from("p"),
        String::from("n"),
    );
    assert_eq!(
        opened.err(),
        Some(ArchiveBuilderError::OpenReturnedNull {
            name: String::from("n"),
            path: String::from("p")
        })
    );
}

#[test]
fn closing_calls_the_close_function_once_and_maps_its_status() {
    let calls = Cell::new(0u32);
    let archive = Archive::opened(
        32,
        |ptr: usize| {
            assert_eq!(ptr, 32);
            calls.set(calls.get() + 1);
            ErrorCode(OTF2_SUCCESS)
        },
        String::from("p"),
        String::from("n"),
    )
    .ok()
    .unwrap();
    assert_eq!(archive.path, "p");
    assert_eq!(archive.name, "n");
    assert_eq!(archive.close(), Ok(()));
    assert_eq!(calls.get(), 1);
    let failing = Archive::opened(
        32,
        |_ptr: usize| ErrorCode(OTF2_ERROR_EACCES),
        String::from("p"),
        String::from("n"),
    )
    .ok()
    .unwrap();
    assert_eq!(
        failing.close(),
        Err(ArchiveError::Close(Status::from(ErrorCode(
            OTF2_ERROR_EACCES
        ))))
    );
}
