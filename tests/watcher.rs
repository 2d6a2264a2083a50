use beer::watcher::{handle_screensize_change, WindowSize};

#[test]
fn watcher_emits_only_on_change() {
    let mut last = WindowSize { columns: 80, rows: 24 };
    assert_eq!(handle_screensize_change(&mut last, WindowSize { columns: 80, rows: 24 }), None);
    assert_eq!(handle_screensize_change(&mut last, WindowSize { columns: 80, rows: 24 }), None);
    let bigger = WindowSize { columns: 100, rows: 24 };
    assert_eq!(handle_screensize_change(&mut last, bigger), Some(bigger));
    assert_eq!(last, bigger);
    assert_eq!(handle_screensize_change(&mut last, bigger), None);
    let taller = WindowSize { columns: 100, rows: 40 };
    assert_eq!(handle_screensize_change(&mut last, taller), Some(taller));
}
