use nri::transfer::{check_counts, check_space, counts_as_file, destination, rsync_target, TransferError};

#[test]
fn remote_destinations() {
    let d = destination("me:secret@host.example:/data/eps").unwrap();
    assert_eq!(d.user, "me");
    assert_eq!(d.pass, "secret");
    assert_eq!(d.host, "host.example");
    assert_eq!(d.dir, "/data/eps");
    assert_eq!(rsync_target(&d), "me@host.example:/data/eps");
}

#[test]
fn passwords_may_hold_colons_and_hosts_at_signs() {
    let d = destination("u:p:w@h@x:dir:more").unwrap();
    assert_eq!(d.pass, "p:w");
    assert_eq!(d.host, "h@x");
    assert_eq!(d.dir, "dir:more");
}

#[test]
fn local_destinations() {
    assert!(destination("/mnt/usb").is_none());
    assert!(destination(":p@h:d").is_none());
    assert!(destination("u:@h:d").is_none());
    assert!(destination("u:p@:d").is_none());
    assert!(destination("u:p@h:d\ne").is_none());
    assert!(destination("u:p@h").is_none());
    let empty_dir = destination("u:p@h:").unwrap();
    assert_eq!(empty_dir.dir, "");
}

#[test]
fn file_counts() {
    assert_eq!(check_counts(0, 1, 0, 11, 1, 1), Ok(()));
    assert_eq!(check_counts(0, 1, 0, 10, 1, 1), Err(TransferError::WrongCsvCount));
    assert_eq!(check_counts(10, 1, 6, 11, 1, 1), Ok(()));
    assert_eq!(check_counts(10, 1, 5, 11, 1, 1), Err(TransferError::WrongPngCount));
}

#[test]
fn space() {
    assert_eq!(check_space(10, 10), Ok(()));
    assert_eq!(check_space(11, 10), Err(TransferError::NotEnoughSpace));
}

#[test]
fn copied_files() {
    assert!(counts_as_file("ep/1/x.flow"));
    assert!(counts_as_file("a.png"));
    assert!(counts_as_file("b.csv"));
    assert!(!counts_as_file("c.dat"));
    assert!(!counts_as_file("sent 10 bytes"));
}
