use serwus::db_pool::database_url;
use serwus::db_pool::default_database_url;
use serwus::db_pool::default_pool_size;
use serwus::db_pool::multi::database_mirrors_urls;
use serwus::db_pool::multi::read_target;
use serwus::db_pool::multi::MirrorDispatcher;
use serwus::db_pool::multi::MultiPoolBuilder;
use serwus::db_pool::multi::ReadTarget;
use serwus::db_pool::pool_max_size;

#[test]
fn pool_size_follows_threads_but_never_below_two() {
    assert_eq!(default_pool_size(0), 2);
    assert_eq!(default_pool_size(1), 2);
    assert_eq!(default_pool_size(2), 2);
    assert_eq!(default_pool_size(8), 8);
}

#[test]
fn pool_is_capped_under_test() {
    assert_eq!(pool_max_size(true, 8), 2);
    assert_eq!(pool_max_size(true, 3), 2);
    assert_eq!(pool_max_size(true, 2), 2);
    assert_eq!(pool_max_size(true, 1), 1);
    assert_eq!(pool_max_size(true, 0), 0);
    assert_eq!(pool_max_size(false, 8), 8);
    assert_eq!(pool_max_size(false, 0), 0);
    assert_eq!(pool_max_size(false, u32::MAX as usize), u32::MAX);
}

#[test]
fn pool_size_is_cut_to_32_bits() {
    if usize::BITS > 32 {
        let wide = (1u64 << 32) as usize;
        assert_eq!(pool_max_size(false, wide + 5), 5);
        assert_eq!(pool_max_size(false, wide), 0);
        assert_eq!(pool_max_size(true, wide), 2);
    }
}

#[test]
fn database_url_or_its_stand_in() {
    assert_eq!(database_url("DB", Some("postgres://x".to_string())), "postgres://x");
    assert_eq!(database_url("DB", Some(String::new())), "");
    assert_eq!(database_url("DB", None), "DB must be set");
    assert_eq!(default_database_url(None), "DATABASE_URL must be set");
    assert_eq!(default_database_url(Some("u".to_string())), "u");
}

#[test]
fn mirror_urls_are_split_at_commas() {
    assert!(database_mirrors_urls(None).is_empty());
    assert_eq!(database_mirrors_urls(Some("")), vec![String::new()]);
    assert_eq!(database_mirrors_urls(Some("a")), vec!["a".to_string()]);
    assert_eq!(database_mirrors_urls(Some("a,b")), vec!["a".to_string(), "b".to_string()]);
    assert_eq!(
        database_mirrors_urls(Some("a,,b,")),
        vec!["a".to_string(), String::new(), "b".to_string(), String::new()]
    );
    assert_eq!(database_mirrors_urls(Some(",")), vec![String::new(), String::new()]);
    let given = "postgres://ä@h/1,postgres://h/2";
    let expected: Vec<String> = given.split(',').map(String::from).collect();
    assert_eq!(database_mirrors_urls(Some(given)), expected);
}

#[test]
fn builder_starts_from_threads_and_takes_settings() {
    let builder = MultiPoolBuilder::for_threads(1);
    assert_eq!(builder.pool_size(), 2);
    assert_eq!(builder.write_env(), "DATABASE_URL");
    assert_eq!(builder.read_env(), "DATABASE_MIRRORS_URLS");
    assert!(!builder.is_readonly());
    let builder = MultiPoolBuilder::for_threads(6);
    assert_eq!(builder.pool_size(), 6);
    let builder = builder.size(9).write_url_env("W").read_url_env("R").readonly();
    assert_eq!(builder.pool_size(), 9);
    assert_eq!(builder.write_env(), "W");
    assert_eq!(builder.read_env(), "R");
    assert!(builder.is_readonly());
}

#[test]
fn dispatcher_without_mirrors_sends_reads_to_master() {
    let mut dispatcher = MirrorDispatcher::new();
    assert_eq!(dispatcher.mirrors(), 0);
    assert_eq!(dispatcher.next(), None);
    assert_eq!(read_target(dispatcher.next()), ReadTarget::Master);
    assert_eq!(read_target(None), ReadTarget::Master);
    assert_eq!(read_target(Some(3)), ReadTarget::Mirror(3));
}

#[test]
fn dispatcher_hands_out_its_mirrors() {
    let mut dispatcher = MirrorDispatcher::new();
    assert_eq!(dispatcher.add_mirror(), 0);
    assert_eq!(dispatcher.mirrors(), 1);
    for _ in 0..5 {
        assert_eq!(dispatcher.next(), Some(0));
    }
    assert_eq!(dispatcher.add_mirror(), 1);
    assert_eq!(dispatcher.add_mirror(), 2);
    assert_eq!(dispatcher.mirrors(), 3);
    let mut seen = [0usize; 3];
    for _ in 0..30 {
        let n = dispatcher.next().unwrap();
        assert!(n < 3);
        seen[n] += 1;
    }
    assert_eq!(seen, [10, 10, 10]);
}
