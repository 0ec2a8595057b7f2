use rs_commons::adapters::queue_publisher::{publish_outcome, setup_failure, worker_id_of_message, worker_message, QueueSetupStep, worker_publication, QueueConfig};
use rs_commons::adapters::models::common_error::ErrorDefinition;
use rs_commons::adapters::models::worker::task_worker::{TaskWorker, WorkerWhat};
use rs_commons::adapters::queue_publisher::{delivery_action, DeliveryAction};
use rs_commons::adapters::models::task::has_unique_names;
use rs_commons::json::JsonValue;
use rs_commons::adapters::db::client::{parse_port, PgConnectionSettings};
use rs_commons::adapters::db::config::{postgres_config, queue_config, DbConfig, SslMode};
use rs_commons::config::config::Config;
use rs_commons::db::client::mongodb_uri;
use rs_commons::foreign::dates::parses_as_datetime;
use rs_commons::foreign::ids::{parse_uuid, uuid_to_string};
use rs_commons::foreign::text::{string_from_utf8, to_lowercase, trim};

fn config(tls: bool) -> Config {
    Config {
        pg_url: "db.local".to_string(),
        pg_port: "5432".to_string(),
        pg_username: "user".to_string(),
        pg_password: "SECRET-REDACTED".to_string(),
        pg_database: "engine".to_string(),
        pg_database_use_tls: tls,
        app_port: 8080,
        app_host: "0.0.0.0".to_string(),
        queue_amqp_path: "amqp://localhost:5672".to_string(),
        queue_exchange_name: "workers".to_string(),
        mongodb_url: "cluster.example".to_string(),
        mongodb_username: "mu".to_string(),
        mongodb_password: "mp".to_string(),
        mongodb_database: "md".to_string(),
    }
}

#[test]
fn parse_port_reads_like_u16_from_str() {
    assert_eq!(parse_port("5432"), Some(5432));
    assert_eq!(parse_port("+80"), Some(80));
    assert_eq!(parse_port("0"), Some(0));
    assert_eq!(parse_port("65535"), Some(65535));
    assert_eq!(parse_port("65536"), None);
    assert_eq!(parse_port(""), None);
    assert_eq!(parse_port("+"), None);
    assert_eq!(parse_port("-1"), None);
    assert_eq!(parse_port("12a"), None);
    assert_eq!(parse_port(" 1"), None);
    for text in ["1", "007", "999999", "+0", "x", "++1"] {
        assert_eq!(parse_port(text), text.parse::<u16>().ok());
    }
}

#[test]
fn postgres_settings_follow_the_config() {
    let c = config(true);
    let db = postgres_config(&c);
    assert_eq!(db.db_path, "db.local");
    assert_eq!(db.db_port, "5432");
    assert_eq!(db.db_ssl_mode, SslMode::Require);
    assert_eq!(postgres_config(&config(false)).db_ssl_mode, SslMode::Disable);
    let s = PgConnectionSettings::from_db_config(db).unwrap();
    assert_eq!(s.port, 5432);
    assert_eq!(s.host, "db.local");
    assert_eq!(s.user, "user");
    assert_eq!(s.dbname, "engine");
    assert_eq!(s.ssl_mode, SslMode::Require);
    let bad = DbConfig {
        db_path: "h".to_string(),
        db_port: "port".to_string(),
        db_username: "u".to_string(),
        db_password: "p".to_string(),
        db_database: "d".to_string(),
        db_ssl_mode: SslMode::Disable,
    };
    assert!(PgConnectionSettings::from_db_config(bad).is_none());
}

#[test]
fn queue_and_mongodb_settings() {
    let c = config(false);
    let q = queue_config(&c);
    assert_eq!(q.amqp_path, "amqp://localhost:5672");
    assert_eq!(q.queue_name, "workers");
    let m = c.get_db_config();
    assert_eq!(mongodb_uri(&m), "mongodb+srv://mu:mp@cluster.example/?retryWrites=true&w=majority");
}

#[test]
fn uuid_text_round_trip() {
    let id: u128 = 0x67e5_5044_10b1_426f_9247_bb68_0e5f_e0c8;
    let text = uuid_to_string(id);
    assert_eq!(text, "67e55044-10b1-426f-9247-bb680e5fe0c8");
    assert_eq!(parse_uuid(&text), Some(id));
    assert_eq!(parse_uuid("not a uuid"), None);
}

#[test]
fn worker_message_round_trip() {
    let id: u128 = 42;
    let bytes = worker_message(id);
    assert_eq!(bytes, b"00000000-0000-0000-0000-00000000002a".to_vec());
    assert_eq!(worker_id_of_message(bytes), Some(42));
    assert_eq!(worker_id_of_message(vec![0xff, 0xfe]), None);
    assert_eq!(worker_id_of_message(b"hello".to_vec()), None);
}

#[test]
fn queue_failures_name_the_step() {
    let e = setup_failure(QueueSetupStep::Connect, "refused".to_string());
    assert_eq!(e.description, "Error creating amqp connection");
    assert_eq!(setup_failure(QueueSetupStep::CreateChannel, String::new()).description, "Couldn't create channel");
    assert_eq!(setup_failure(QueueSetupStep::DeclareQueue, String::new()).description, "Couldn't declare queue");
    assert_eq!(setup_failure(QueueSetupStep::CreateConsumer, String::new()).description, "Couldn't create consumer");
    assert!(publish_outcome(Ok(())).is_ok());
    let e = publish_outcome(Err("closed".to_string())).unwrap_err();
    assert_eq!(e.description, "Couldn't publish message");
}

#[test]
fn text_helpers() {
    assert_eq!(to_lowercase("OuT"), "out");
    assert_eq!(trim("  in \t"), "in");
    assert_eq!(string_from_utf8(b"abc".to_vec()), Some("abc".to_string()));
    assert_eq!(string_from_utf8(vec![0xc3]), None);
}

#[test]
fn datetime_formats() {
    assert!(parses_as_datetime("2024-01-31 10:20:30 +0000", "%Y-%m-%d %H:%M:%S %z"));
    assert!(!parses_as_datetime("2024-01-31", "%Y-%m-%d %H:%M:%S %z"));
    assert!(!parses_as_datetime("yesterday", "%Y-%m-%d"));
}

#[test]
fn worker_publication_goes_to_the_queue() {
    let config = QueueConfig { amqp_path: "amqp://h".to_string(), queue_name: "workers".to_string() };
    let p = worker_publication(&config, 42);
    assert_eq!(p.exchange, "");
    assert_eq!(p.routing_key, "workers");
    assert_eq!(p.content_type, "text/plain");
    assert_eq!(p.payload, b"00000000-0000-0000-0000-00000000002a".to_vec());
    assert_eq!(worker_id_of_message(p.payload), Some(42));
}

#[test]
fn delivery_actions_follow_the_worker() {
    let w = |what| TaskWorker { id: 1, task_id: 2, created_at: 3, element_id: 4, what };
    assert!(matches!(delivery_action(Ok(w(WorkerWhat::Process))), DeliveryAction::Process(ref x) if x.id == 1));
    assert!(matches!(delivery_action(Ok(w(WorkerWhat::RouteAfter))), DeliveryAction::RouteAfter(_)));
    assert!(matches!(delivery_action(Err(ErrorDefinition::empty("Worker not found".to_string()))), DeliveryAction::Skip));
}

#[test]
fn argument_names_must_differ() {
    assert!(has_unique_names(&None));
    assert!(has_unique_names(&Some(vec![("a".to_string(), JsonValue::Null), ("b".to_string(), JsonValue::Null)])));
    assert!(!has_unique_names(&Some(vec![
        ("a".to_string(), JsonValue::Null),
        ("b".to_string(), JsonValue::Null),
        ("a".to_string(), JsonValue::Bool(true)),
    ])));
}

#[test]
fn trimming_uses_unicode_white_space() {
    assert_eq!(trim("\u{3000} in\u{a0}\n"), "in");
    assert_eq!(to_lowercase(" OUT "), " out ");
}

#[test]
fn uuid_texts_in_every_accepted_shape() {
    let id: u128 = 0x67e5_5044_10b1_426f_9247_bb68_0e5f_e0c8;
    assert_eq!(parse_uuid("67E5504410B1426F9247BB680E5FE0C8"), Some(id));
    assert_eq!(parse_uuid("{67e55044-10b1-426f-9247-bb680e5fe0c8}"), Some(id));
    assert_eq!(parse_uuid("URN:uuid:67e55044-10b1-426f-9247-bb680e5fe0c8"), Some(id));
    assert_eq!(parse_uuid("67e55044-10b1-426f-9247-bb680e5fe0c"), None);
    assert_eq!(parse_uuid("67e55044+10b1-426f-9247-bb680e5fe0c8"), None);
    assert_eq!(parse_uuid("g7e5504410b1426f9247bb680e5fe0c8"), None);
}
