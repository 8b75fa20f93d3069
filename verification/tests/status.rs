use zhsmonitor::generate_leveled_sql::{gl_current_general, SqlGeneratorError};
use zhsmonitor::generate_sql::generate_current_players;
use zhsmonitor::generate_sql::CompressionType::{Average, StandardDeviation};
use zhsmonitor::generate_sql::DataType::{Latency, Memory, CPU};
use zhsmonitor::responses::ValuePointInt;
use zhsmonitor::status::{
    current_status_queries, ECS_TABLE, MC_TABLE, PHYSICAL_TABLE, SYSTEMDIRECT_TABLE, TRC_TABLE,
};

#[test]
fn table_names() {
    assert_eq!(ECS_TABLE, "ecs_stat");
    assert_eq!(PHYSICAL_TABLE, "physical_stat");
    assert_eq!(MC_TABLE, "mcserver_stat");
    assert_eq!(SYSTEMDIRECT_TABLE, "sysytemdirect_stat");
    assert_eq!(TRC_TABLE, "trc_stat");
}

#[test]
fn current_status_queries_in_order() {
    for level in 0..6 {
        let g = |c, d, t| gl_current_general(c, d, t, level).unwrap();
        let expected = vec![
            g(Average, CPU, "ecs_stat"),
            g(StandardDeviation, CPU, "ecs_stat"),
            g(Average, Memory, "ecs_stat"),
            g(StandardDeviation, Memory, "ecs_stat"),
            g(Average, CPU, "physical_stat"),
            g(StandardDeviation, CPU, "physical_stat"),
            g(Average, Memory, "physical_stat"),
            g(StandardDeviation, Memory, "physical_stat"),
            g(Average, Latency, "mcserver_stat"),
            g(StandardDeviation, Latency, "mcserver_stat"),
            generate_current_players("mcserver_stat"),
            g(Average, Latency, "sysytemdirect_stat"),
            g(StandardDeviation, Latency, "sysytemdirect_stat"),
            generate_current_players("sysytemdirect_stat"),
            g(Average, Latency, "trc_stat"),
            g(StandardDeviation, Latency, "trc_stat"),
            generate_current_players("trc_stat"),
        ];
        assert_eq!(current_status_queries(level), Ok(expected));
    }
}

#[test]
fn current_status_queries_level_one_first_query() {
    let queries = current_status_queries(1).unwrap();
    assert_eq!(queries.len(), 17);
    assert_eq!(
        queries[0],
        "SELECT AVG(cpu_usage) FROM ecs_stat WHERE create_time > DATE_SUB(NOW(), INTERVAL 3600 SECOND) AND deleted = 0;"
    );
    assert_eq!(
        queries[16],
        "SELECT players FROM trc_stat WHERE deleted = 0 ORDER BY create_time DESC LIMIT 1;"
    );
}

#[test]
fn current_status_queries_reject_unknown_level() {
    assert_eq!(current_status_queries(6), Err(SqlGeneratorError::InvalidLevel));
    assert_eq!(current_status_queries(-3), Err(SqlGeneratorError::InvalidLevel));
}

#[test]
fn value_point_from_full_row() {
    let p = ValuePointInt::from_row(Some("2024-01-01 00:00:00".to_string()), Some(12));
    assert_eq!(p.time, "2024-01-01 00:00:00");
    assert_eq!(p.value, 12);
}

#[test]
fn value_point_from_missing_row_fields() {
    let p = ValuePointInt::from_row(None, None);
    assert_eq!(p.time, "");
    assert_eq!(p.value, -1);
    let q = ValuePointInt::from_row(Some("t".to_string()), None);
    assert_eq!(q.time, "t");
    assert_eq!(q.value, -1);
}
