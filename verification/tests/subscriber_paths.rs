use komorebi::subscriber::SubscribeOptions;
use komorebi::subscriber::SubscriberRegistry;
use komorebi::subscriber::deletion_outcome;
use komorebi::subscriber::is_lexical_child;
use komorebi::subscriber::remove_owned_leaf;
use komorebi::subscriber::DeletionResult;
use komorebi::subscriber::ExistingEntry;
use komorebi::subscriber::RemovalStep;
use komorebi::subscriber::RemoveOutcome;
use komorebi::subscriber::SubscriberAdmitError;
use komorebi::subscriber::SubscriberCleanupError;
use komorebi::subscriber::SubscriberName;
use komorebi::subscriber::SubscriberSocketPath;

fn wide(text: &str) -> Vec<u16> {
    text.encode_utf16().collect()
}

fn data_dir() -> Vec<u16> {
    wide(r"C:\Users\me\AppData\Local\komorebi")
}

fn escaping_link() -> ExistingEntry {
    ExistingEntry::SymbolicLink {
        resolved_dir: Some(data_dir()),
        resolved_path: Some(wide(r"C:\Users\me\secret.txt")),
    }
}

#[test]
fn admit_records_the_manager_joined_path() {
    let dir = data_dir();
    let name = SubscriberName::parse("legacy-bar").unwrap();
    let endpoint =
        SubscriberSocketPath::admit_socket(&dir, name.clone(), &ExistingEntry::Missing).unwrap();
    assert_eq!(
        endpoint.path(),
        &wide(r"C:\Users\me\AppData\Local\komorebi\legacy-bar")[..]
    );
    assert_eq!(endpoint.name(), &name);
}

#[test]
fn a_directory_with_a_trailing_separator_gets_no_second_one() {
    let dir = wide(r"C:\data\");
    let name = SubscriberName::parse("bar").unwrap();
    assert_eq!(
        SubscriberSocketPath::path_for(&dir, &name),
        wide(r"C:\data\bar")
    );
}

#[test]
fn cleanup_uses_recorded_identity_and_is_idempotent() {
    let dir = data_dir();
    let name = SubscriberName::parse("legacy-bar").unwrap();
    let endpoint = SubscriberSocketPath::admit_socket(&dir, name, &ExistingEntry::File).unwrap();
    assert_eq!(
        endpoint.remove_file(&dir, &ExistingEntry::File),
        Ok(RemovalStep::Delete)
    );
    assert_eq!(deletion_outcome(DeletionResult::Deleted), Ok(RemoveOutcome::Removed));
    assert_eq!(
        endpoint.remove_file(&dir, &ExistingEntry::Missing),
        Ok(RemovalStep::AlreadyGone)
    );
    assert_eq!(
        deletion_outcome(DeletionResult::NotFound),
        Ok(RemoveOutcome::AlreadyGone)
    );
    assert_eq!(
        deletion_outcome(DeletionResult::Failed("denied".to_owned())),
        Err(SubscriberCleanupError::Io("denied".to_owned()))
    );
}

#[test]
fn cleanup_refuses_a_path_that_is_not_the_recorded_identity() {
    let dir = data_dir();
    let name = SubscriberName::parse("legacy-bar").unwrap();
    let endpoint = SubscriberSocketPath::admit_socket(&dir, name, &ExistingEntry::Missing).unwrap();
    let other_dir = wide(r"C:\Users\me");
    assert_eq!(
        endpoint.remove_file(&other_dir, &ExistingEntry::File),
        Err(SubscriberCleanupError::NotManagerRecorded)
    );
}

#[test]
fn cleanup_refuses_to_delete_an_escaped_leaf() {
    let dir = data_dir();
    let outside = wide(r"C:\Users\me\AppData\Local\komorebi\..\komorebi-subscriber-outside-1");
    assert_eq!(
        remove_owned_leaf(&dir, &outside, &ExistingEntry::File),
        Err(SubscriberCleanupError::EscapesDataDir)
    );
    assert!(!is_lexical_child(&dir, &wide(r"C:\Users\me\AppData\Local\komorebi\..")));
    assert!(is_lexical_child(&dir, &wide(r"C:\Users\me\AppData\Local\komorebi\bar")));
    assert!(!is_lexical_child(&dir, &wide(r"C:\Users\me\AppData\Local\komorebi\a\b")));
}

#[test]
fn admit_and_cleanup_refuse_reparse_points_that_escape() {
    let dir = data_dir();
    let name = SubscriberName::parse("legacy-bar").unwrap();
    assert_eq!(
        SubscriberSocketPath::admit_socket(&dir, name.clone(), &escaping_link()).unwrap_err(),
        SubscriberAdmitError::ReparseEscape
    );
    let link = wide(r"C:\Users\me\AppData\Local\komorebi\legacy-bar");
    assert_eq!(
        remove_owned_leaf(&dir, &link, &escaping_link()),
        Err(SubscriberCleanupError::ReparseEscape)
    );
    let inside = ExistingEntry::SymbolicLink {
        resolved_dir: Some(data_dir()),
        resolved_path: Some(wide(r"c:\users\me\appdata\local\KOMOREBI\target")),
    };
    assert!(SubscriberSocketPath::admit_socket(&dir, name.clone(), &inside).is_ok());
    let unresolved = ExistingEntry::SymbolicLink {
        resolved_dir: Some(data_dir()),
        resolved_path: None,
    };
    assert_eq!(
        SubscriberSocketPath::admit_socket(&dir, name, &unresolved).unwrap_err(),
        SubscriberAdmitError::ReparseEscape
    );
}

#[test]
fn directories_are_neither_admitted_nor_removed() {
    let dir = data_dir();
    let name = SubscriberName::parse("legacy-bar").unwrap();
    assert_eq!(
        SubscriberSocketPath::admit_socket(&dir, name.clone(), &ExistingEntry::Directory).unwrap_err(),
        SubscriberAdmitError::NotAFile
    );
    let endpoint = SubscriberSocketPath::admit_socket(&dir, name, &ExistingEntry::Missing).unwrap();
    assert_eq!(
        endpoint.remove_file(&dir, &ExistingEntry::Directory),
        Err(SubscriberCleanupError::NotAFile)
    );
    assert_eq!(
        endpoint.remove_file(&dir, &ExistingEntry::Unreadable("busy".to_owned())),
        Err(SubscriberCleanupError::Io("busy".to_owned()))
    );
}

#[test]
fn failed_delivery_cleans_the_recorded_file_and_options_once() {
    let dir = data_dir();
    let name = SubscriberName::parse("legacy-bar").unwrap();
    let mut registry = SubscriberRegistry::new();
    registry
        .add_socket(
            &dir,
            name.clone(),
            Some(SubscribeOptions {
                filter_state_changes: false,
            }),
            &ExistingEntry::File,
        )
        .unwrap();
    assert!(registry.contains_socket(&name));
    let stale = registry.take_socket(&name).expect("the socket was registered");
    assert_eq!(stale.name(), &name);
    assert_eq!(
        stale.remove_file(&dir, &ExistingEntry::File),
        Ok(RemovalStep::Delete)
    );
    assert!(!registry.contains_socket(&name));
    assert!(registry.take_socket(&name).is_none());
}

#[test]
fn legitimate_legacy_socket_stays_registered_after_delivery() {
    let dir = data_dir();
    let name = SubscriberName::parse("komorebi-bar-forest").unwrap();
    let mut registry = SubscriberRegistry::new();
    registry.add_socket(&dir, name.clone(), None, &ExistingEntry::File).unwrap();
    let recipients = registry.recipients(true, true);
    assert_eq!(recipients.len(), 1);
    assert_eq!(recipients[0].name(), &name);
    assert!(registry.contains_socket(&name));
    assert_eq!(
        registry.socket_paths(),
        vec![wide(r"C:\Users\me\AppData\Local\komorebi\komorebi-bar-forest")]
    );
}

#[test]
fn filtered_subscribers_hear_only_of_state_changes() {
    let dir = data_dir();
    let quiet = SubscriberName::parse("quiet").unwrap();
    let loud = SubscriberName::parse("loud").unwrap();
    let mut registry = SubscriberRegistry::new();
    registry
        .add_socket(
            &dir,
            quiet.clone(),
            Some(SubscribeOptions {
                filter_state_changes: true,
            }),
            &ExistingEntry::Missing,
        )
        .unwrap();
    registry.add_socket(&dir, loud.clone(), None, &ExistingEntry::Missing).unwrap();
    let unchanged = registry.recipients(false, false);
    assert_eq!(unchanged.len(), 1);
    assert_eq!(unchanged[0].name(), &loud);
    assert_eq!(registry.recipients(true, false).len(), 2);
    assert_eq!(registry.recipients(false, true).len(), 2);

    registry.add_socket(&dir, quiet.clone(), None, &ExistingEntry::Missing).unwrap();
    assert_eq!(registry.recipients(false, false).len(), 2);
    assert_eq!(registry.socket_paths().len(), 2);
    assert_eq!(
        registry.add_socket(&dir, quiet.clone(), None, &ExistingEntry::Directory),
        Err(SubscriberAdmitError::NotAFile)
    );
    assert!(registry.contains_socket(&quiet));
    registry.remove_socket(&quiet);
    assert!(!registry.contains_socket(&quiet));
    assert!(registry.contains_socket(&loud));
}
