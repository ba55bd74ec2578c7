use pathlock::lock_manager::{DirectoryLockManager, AcquireOutcome};
use pathlock::paths::CanonicalPath;

fn canon(root: &str, p: &str) -> CanonicalPath {
    CanonicalPath::accept(root, String::from(p)).unwrap()
}

#[test]
fn exclusive_while_held() {
    let mut table = DirectoryLockManager::new();
    let p = canon("/root", "/root/alice/a.txt");
    let handle = match table.acquire(&p) {
        AcquireOutcome::Granted(h) => h,
        AcquireOutcome::MustWait => panic!("first acquisition must be granted"),
    };
    // a second acquisition of the held path is recorded as a waiter,
    // never granted
    match table.acquire(&p) {
        AcquireOutcome::Granted(_) => panic!("lock granted twice for one path"),
        AcquireOutcome::MustWait => {},
    }
    // releasing with a waiter keeps the entry; the waiter takes over
    table.release(handle);
    assert_eq!(table.table_len(), 1);
    let handle2 = table.grant_to_waiter(&p);
    table.release(handle2);
    assert_eq!(table.table_len(), 0);
}

#[test]
fn different_paths_do_not_block() {
    let mut table = DirectoryLockManager::new();
    let a = canon("/root", "/root/alice/a.txt");
    let b = canon("/root", "/root/bob/b.txt");
    let ha = match table.acquire(&a) {
        AcquireOutcome::Granted(h) => h,
        AcquireOutcome::MustWait => panic!("fresh path must be granted"),
    };
    let hb = match table.acquire(&b) {
        AcquireOutcome::Granted(h) => h,
        AcquireOutcome::MustWait => panic!("independent path must not block"),
    };
    table.release(ha);
    table.release(hb);
    assert_eq!(table.table_len(), 0);
}

#[test]
fn table_size_returns_to_zero() {
    let mut table = DirectoryLockManager::new();
    let paths: Vec<CanonicalPath> = (0..8)
        .map(|i| canon("/root", &format!("/root/u/file{}.txt", i)))
        .collect();
    for p in &paths {
        let h = match table.acquire(p) {
            AcquireOutcome::Granted(h) => h,
            AcquireOutcome::MustWait => panic!("no overlap, must be granted"),
        };
        table.release(h);
    }
    assert_eq!(table.table_len(), 0);
    // interleaved cycles over distinct paths leak nothing either
    let mut handles = Vec::new();
    for p in &paths {
        match table.acquire(p) {
            AcquireOutcome::Granted(h) => handles.push(h),
            AcquireOutcome::MustWait => panic!("distinct paths must all be granted"),
        }
    }
    assert_eq!(table.table_len(), 8);
    for h in handles {
        table.release(h);
    }
    assert_eq!(table.table_len(), 0);
}
