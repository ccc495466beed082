use file_dialog::codec::FileDialogUtils;
use file_dialog::filter::encode_filters;
use file_dialog::filter::FileTypeFilter;
use file_dialog::filter::FileTypeFilterWin32;
use file_dialog::registry::DialogError;
use file_dialog::registry::FileDialogManager;
use file_dialog::registry::RegistryCell;
use file_dialog::session::DialogEvent;
use file_dialog::session::FileDialog;
use file_dialog::session::OpenDialog;
use file_dialog::session::SaveDialog;

#[test]
fn wide_encoding_ascii() {
    assert_eq!(FileDialogUtils::to_win32_wide("abc"), vec![97u16, 98, 99, 0]);
}

#[test]
fn wide_encoding_empty() {
    assert_eq!(FileDialogUtils::to_win32_wide(""), vec![0u16]);
}

#[test]
fn wide_encoding_basic_plane() {
    // U+00E9 needs one code unit.
    assert_eq!(FileDialogUtils::to_win32_wide("é"), vec![0x00E9u16, 0]);
}

#[test]
fn wide_encoding_surrogate_pair() {
    // U+1F600 needs a surrogate pair.
    assert_eq!(
        FileDialogUtils::to_win32_wide("\u{1F600}"),
        vec![0xD83Du16, 0xDE00, 0]
    );
}

#[test]
fn wide_encoding_matches_std() {
    let s = "mixed: aé\u{1F600}z";
    let mut expect: Vec<u16> = s.encode_utf16().collect();
    expect.push(0);
    assert_eq!(FileDialogUtils::to_win32_wide(s), expect);
}

#[test]
fn filter_fields_kept() {
    let f = FileTypeFilter::new("png".to_string(), "Images".to_string());
    assert_eq!(f.get_extension(), "png");
    assert_eq!(f.get_description(), "Images");
}

#[test]
fn filter_encoding_png_images() {
    let w = FileTypeFilterWin32::new("png", "Images");
    let mut pattern: Vec<u16> = "*.png".encode_utf16().collect();
    pattern.push(0);
    let mut label: Vec<u16> = "Images".encode_utf16().collect();
    label.push(0);
    assert_eq!(w.get_extension(), pattern.as_slice());
    assert_eq!(w.get_description(), label.as_slice());
}

#[test]
fn filter_list_encoded_in_order() {
    let fs = vec![
        FileTypeFilter::new("png".to_string(), "Images".to_string()),
        FileTypeFilter::new("txt".to_string(), "Text".to_string()),
    ];
    let ws = encode_filters(&fs);
    assert_eq!(ws.len(), 2);
    let mut second: Vec<u16> = "*.txt".encode_utf16().collect();
    second.push(0);
    assert_eq!(ws[1].get_extension(), second.as_slice());
}

#[test]
fn uninitialized_registry_is_empty_and_an_error() {
    let cell = RegistryCell::empty();
    assert!(FileDialogManager::try_get(&cell).is_none());
    match FileDialogManager::get(&cell) {
        Err(e) => assert_eq!(e, DialogError::RegistryUninitialized),
        Ok(_) => panic!("an empty cell must not hand out a registry"),
    }
}

#[test]
fn singleton_first_writer_wins() {
    let mut cell = RegistryCell::empty();
    FileDialogManager::get_or_set(&mut cell, "first".to_string(), 11);
    FileDialogManager::get_or_set(&mut cell, "second".to_string(), 22);
    let m = FileDialogManager::get(&cell).unwrap();
    assert_eq!(m.get_default_open(), "first");
    assert_eq!(m.get_default_save(), "first");
    assert_eq!(m.get_window_handle(), 11);
}

#[test]
fn create_overwrites_unconditionally() {
    let mut cell = RegistryCell::empty();
    FileDialogManager::new(&mut cell, "first".to_string(), 11);
    FileDialogManager::new(&mut cell, "second".to_string(), 22);
    let m = FileDialogManager::get(&cell).unwrap();
    assert_eq!(m.get_default_open(), "second");
    assert_eq!(m.get_window_handle(), 22);
}

#[test]
fn open_and_save_defaults_are_independent() {
    let mut cell = RegistryCell::empty();
    FileDialogManager::new(&mut cell, "start".to_string(), 1);
    let m = cell.inner.as_mut().unwrap();
    m.set_default_open("opened");
    assert_eq!(m.get_default_save(), "start");
    m.set_default_save("saved");
    assert_eq!(m.get_default_open(), "opened");
    assert_eq!(m.get_default_save(), "saved");
    assert_eq!(m.get_window_handle(), 1);
}

#[test]
fn session_new_reports_instantiation_failure() {
    assert!(OpenDialog::new(true).is_ok());
    assert!(SaveDialog::new(true).is_ok());
    match OpenDialog::new(false) {
        Err(e) => assert_eq!(e, DialogError::DialogInstantiationFailed),
        Ok(_) => panic!("a failed platform object must fail the session"),
    }
    match SaveDialog::new(false) {
        Err(e) => assert_eq!(e, DialogError::DialogInstantiationFailed),
        Ok(_) => panic!("a failed platform object must fail the session"),
    }
}

#[test]
fn default_titles_per_kind() {
    assert_eq!(OpenDialog.get_default_title(), "Open a file");
    assert_eq!(SaveDialog.get_default_title(), "Save a file");
}

#[test]
fn title_resolution_prefers_the_caller() {
    let mut expect: Vec<u16> = "Choose".encode_utf16().collect();
    expect.push(0);
    assert_eq!(OpenDialog.get_title(Some("Choose")), expect);
    let mut fallback: Vec<u16> = "Save a file".encode_utf16().collect();
    fallback.push(0);
    assert_eq!(SaveDialog.get_title(None), fallback);
}

#[test]
fn open_config_reads_the_open_default() {
    let mut cell = RegistryCell::empty();
    FileDialogManager::new(&mut cell, "D0".to_string(), 42);
    let m = cell.inner.as_ref().unwrap();
    let c = OpenDialog.open(m, None, None);
    assert!(c.filters.is_none());
    assert!(!c.folder_only);
    assert_eq!(c.window, 42);
    let mut folder: Vec<u16> = "D0".encode_utf16().collect();
    folder.push(0);
    assert_eq!(c.start_folder, folder);
    let mut title: Vec<u16> = "Open a file".encode_utf16().collect();
    title.push(0);
    assert_eq!(c.title, title);
}

#[test]
fn open_config_encodes_supplied_filters() {
    let mut cell = RegistryCell::empty();
    FileDialogManager::new(&mut cell, "D0".to_string(), 42);
    let m = cell.inner.as_ref().unwrap();
    let fs = vec![FileTypeFilter::new("png".to_string(), "Images".to_string())];
    let c = OpenDialog.open(m, Some(&fs), None);
    let ws = c.filters.expect("supplied filters must be installed");
    assert_eq!(ws.len(), 1);
    let mut pattern: Vec<u16> = "*.png".encode_utf16().collect();
    pattern.push(0);
    assert_eq!(ws[0].get_extension(), pattern.as_slice());
}

#[test]
fn open_folder_config_restricts_to_folders_without_filters() {
    let mut cell = RegistryCell::empty();
    FileDialogManager::new(&mut cell, "D0".to_string(), 42);
    let m = cell.inner.as_ref().unwrap();
    let c = OpenDialog.open_folder(m, Some("Pick"));
    assert!(c.folder_only);
    assert!(c.filters.is_none());
    let mut title: Vec<u16> = "Pick".encode_utf16().collect();
    title.push(0);
    assert_eq!(c.title, title);
}

#[test]
fn save_config_reads_the_save_default() {
    let mut cell = RegistryCell::empty();
    FileDialogManager::new(&mut cell, "S0".to_string(), 7);
    let m = cell.inner.as_mut().unwrap();
    m.set_default_save("elsewhere");
    let c = SaveDialog.save(m, None, None);
    assert!(!c.folder_only);
    let mut folder: Vec<u16> = "elsewhere".encode_utf16().collect();
    folder.push(0);
    assert_eq!(c.start_folder, folder);
    let mut title: Vec<u16> = "Save a file".encode_utf16().collect();
    title.push(0);
    assert_eq!(c.title, title);
}

#[test]
fn confirmed_open_updates_the_open_default() {
    let mut cell = RegistryCell::empty();
    FileDialogManager::new(&mut cell, "D0".to_string(), 1);
    let m = cell.inner.as_mut().unwrap();
    let r = OpenDialog.finish(m, DialogEvent::Confirmed("P".to_string()));
    assert_eq!(r, Ok(Some("P".to_string())));
    assert_eq!(m.get_default_open(), "P");
    assert_eq!(m.get_default_save(), "D0");
    let next = OpenDialog.open(m, None, None);
    let mut folder: Vec<u16> = "P".encode_utf16().collect();
    folder.push(0);
    assert_eq!(next.start_folder, folder);
}

#[test]
fn cancelled_open_leaves_the_default() {
    let mut cell = RegistryCell::empty();
    FileDialogManager::new(&mut cell, "D0".to_string(), 1);
    let m = cell.inner.as_mut().unwrap();
    let r = OpenDialog.finish(m, DialogEvent::Cancelled);
    assert_eq!(r, Ok(None));
    assert_eq!(m.get_default_open(), "D0");
    let next = OpenDialog.open(m, None, None);
    let mut folder: Vec<u16> = "D0".encode_utf16().collect();
    folder.push(0);
    assert_eq!(next.start_folder, folder);
}

#[test]
fn confirmed_save_updates_the_save_default_only() {
    let mut cell = RegistryCell::empty();
    FileDialogManager::new(&mut cell, "D0".to_string(), 1);
    let m = cell.inner.as_mut().unwrap();
    let r = SaveDialog.finish(m, DialogEvent::Confirmed("out.txt".to_string()));
    assert_eq!(r, Ok(Some("out.txt".to_string())));
    assert_eq!(m.get_default_save(), "out.txt");
    assert_eq!(m.get_default_open(), "D0");
}

#[test]
fn cancellation_is_not_an_error() {
    let mut cell = RegistryCell::empty();
    FileDialogManager::new(&mut cell, "D0".to_string(), 1);
    let m = cell.inner.as_mut().unwrap();
    assert_eq!(OpenDialog.finish(m, DialogEvent::Cancelled), Ok(None));
    assert_eq!(SaveDialog.finish(m, DialogEvent::Cancelled), Ok(None));
}

#[test]
fn configuration_failure_is_an_error_not_a_cancellation() {
    let mut cell = RegistryCell::empty();
    FileDialogManager::new(&mut cell, "D0".to_string(), 1);
    let m = cell.inner.as_mut().unwrap();
    let r = OpenDialog.finish(m, DialogEvent::ConfigurationFailed);
    assert_eq!(r, Err(DialogError::DialogConfigurationFailed));
    assert_eq!(m.get_default_open(), "D0");
}

#[test]
fn retrieval_failure_is_an_error_and_leaves_the_default() {
    let mut cell = RegistryCell::empty();
    FileDialogManager::new(&mut cell, "D0".to_string(), 1);
    let m = cell.inner.as_mut().unwrap();
    let r = SaveDialog.finish(m, DialogEvent::ResultRetrievalFailed);
    assert_eq!(r, Err(DialogError::DialogResultRetrievalFailed));
    assert_eq!(m.get_default_save(), "D0");
}

#[test]
fn session_default_path_accessors_follow_the_kind() {
    let mut cell = RegistryCell::empty();
    FileDialogManager::new(&mut cell, "both".to_string(), 1);
    let m = cell.inner.as_mut().unwrap();
    SaveDialog.set_default_path(m, "saved");
    assert_eq!(OpenDialog.get_default_path(m), "both");
    assert_eq!(SaveDialog.get_default_path(m), "saved");
    assert_eq!(OpenDialog.get_window_handle(m), 1);
}
