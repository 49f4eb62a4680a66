use pg_connect::{socket_file_name, socket_path};

#[test]
fn socket_path_of_default_directory() {
    assert_eq!(
        socket_path("/var/run/postgresql", 5432),
        "/var/run/postgresql/.s.PGSQL.5432"
    );
}

#[test]
fn socket_path_keeps_trailing_separator() {
    assert_eq!(socket_path("/tmp/", 5433), "/tmp/.s.PGSQL.5433");
}

#[test]
fn socket_path_in_empty_directory() {
    assert_eq!(socket_path("", 5432), ".s.PGSQL.5432");
}

#[test]
fn socket_path_relative_directory() {
    assert_eq!(socket_path("run", 7), "run/.s.PGSQL.7");
}

#[test]
fn socket_file_name_extreme_ports() {
    assert_eq!(socket_file_name(0), ".s.PGSQL.0");
    assert_eq!(socket_file_name(10), ".s.PGSQL.10");
    assert_eq!(socket_file_name(65535), ".s.PGSQL.65535");
}
