use zhsmonitor::decimal::decimal_string;
use zhsmonitor::generate_leveled_sql::{
    generate_drs, gl_current_general, gl_mc_stat, gl_server_stat, SqlGeneratorError,
};
use zhsmonitor::generate_sql::{
    generate_current_general, generate_current_players, generate_mc_stat, generate_server_stat,
    CompressionType, DataType,
};

fn reference_server_stat(table: &str, time_interval: &str, bucket_size: &str) -> String {
    format!(
        r#"
SELECT
    parted_time.bucket_time as create_time,
    ROUND(AVG(parted_time.cpu_usage), 1) AS cpu_usage,
    ROUND(AVG(parted_time.memory_usage), 1) AS memory_usage,
    ROUND(AVG(parted_time.net_send_rate), 1) AS net_send_rate,
    ROUND(AVG(parted_time.net_recv_rate), 1) AS net_recv_rate
FROM (
    SELECT
        DATE_FORMAT(
            FROM_UNIXTIME(FLOOR(UNIX_TIMESTAMP(create_time) / {cs}) * {cs}),
            '%Y-%m-%d %H:%i:%s'
        ) AS bucket_time,
        cpu_usage,
        memory_usage,
        net_send_rate,
        net_recv_rate
    FROM {table}
    WHERE create_time > DATE_SUB(NOW(), INTERVAL {maxirv} SECOND) AND deleted = 0
) AS parted_time
GROUP BY parted_time.bucket_time
ORDER BY parted_time.bucket_time;
    "#,
        cs = bucket_size,
        table = table,
        maxirv = time_interval
    )
}

fn reference_mc_stat(table: &str, time_interval: &str, bucket_size: &str) -> String {
    format!(
        r#"
SELECT
    parted_time.bucket_time as create_time,
    ROUND(AVG(parted_time.latency), 1) AS latency,
    MAX(parted_time.players) AS players
FROM (
    SELECT
        DATE_FORMAT(
            FROM_UNIXTIME(FLOOR(UNIX_TIMESTAMP(create_time) / {cs}) * {cs}),
            '%Y-%m-%d %H:%i:%s'
        ) AS bucket_time,
        latency,
        players
    FROM {table}
    WHERE create_time > DATE_SUB(NOW(), INTERVAL {maxirv} SECOND) AND deleted = 0
) AS parted_time
GROUP BY parted_time.bucket_time
ORDER BY parted_time.bucket_time;
    "#,
        cs = bucket_size,
        table = table,
        maxirv = time_interval
    )
}

const LEVELS: [(i32, i32, i32); 6] = [
    (0, 300, 1),
    (1, 3600, 12),
    (2, 86400, 288),
    (3, 864000, 2880),
    (4, 8640000, 28800),
    (5, 31536000, 105120),
];

#[test]
fn drs_of_each_level() {
    for (level, window, bucket) in LEVELS {
        assert_eq!(generate_drs(level), Ok((window, bucket)));
    }
}

#[test]
fn drs_rejects_unknown_levels() {
    for level in [-1, 6, 7, 100, i32::MAX, i32::MIN] {
        assert_eq!(generate_drs(level), Err(SqlGeneratorError::InvalidLevel));
    }
}

#[test]
fn every_level_has_three_hundred_buckets() {
    for (level, _, _) in LEVELS {
        let (window, bucket) = generate_drs(level).unwrap();
        assert!(bucket > 0);
        assert_eq!(window, 300 * bucket);
    }
}

#[test]
fn higher_levels_cover_longer_windows() {
    for pair in LEVELS.windows(2) {
        let (w1, b1) = generate_drs(pair[0].0).unwrap();
        let (w2, b2) = generate_drs(pair[1].0).unwrap();
        assert!(w1 < w2);
        assert!(b1 < b2);
    }
}

#[test]
fn window_lengths_match_the_readme() {
    // 300 s, one hour, one day, ten days, a hundred days, one year.
    let day = 24 * 3600;
    let expected = [300, 3600, day, 10 * day, 100 * day, 365 * day];
    for (i, (level, _, _)) in LEVELS.iter().enumerate() {
        assert_eq!(generate_drs(*level).unwrap().0, expected[i]);
    }
}

#[test]
fn server_stat_matches_template() {
    let q = generate_server_stat("ecs_stat", "3600", "12");
    assert_eq!(q, reference_server_stat("ecs_stat", "3600", "12"));
    assert!(q.contains("FLOOR(UNIX_TIMESTAMP(create_time) / 12) * 12)"));
    assert!(q.contains("FROM ecs_stat\n"));
    assert!(q.contains("INTERVAL 3600 SECOND"));
}

#[test]
fn mc_stat_matches_template() {
    let q = generate_mc_stat("trc_stat", "86400", "288");
    assert_eq!(q, reference_mc_stat("trc_stat", "86400", "288"));
    assert!(q.contains("MAX(parted_time.players) AS players"));
}

#[test]
fn series_templates_keep_arbitrary_arguments() {
    assert_eq!(generate_server_stat("", "", ""), reference_server_stat("", "", ""));
    assert_eq!(generate_mc_stat("a b", "x", "y"), reference_mc_stat("a b", "x", "y"));
}

#[test]
fn gl_server_stat_at_each_level() {
    for (level, window, bucket) in LEVELS {
        let expected =
            reference_server_stat("physical_stat", &window.to_string(), &bucket.to_string());
        assert_eq!(gl_server_stat("physical_stat", level), Ok(expected));
    }
    assert_eq!(gl_server_stat("physical_stat", 6), Err(SqlGeneratorError::InvalidLevel));
}

#[test]
fn gl_mc_stat_at_each_level() {
    for (level, window, bucket) in LEVELS {
        let expected =
            reference_mc_stat("mcserver_stat", &window.to_string(), &bucket.to_string());
        assert_eq!(gl_mc_stat("mcserver_stat", level), Ok(expected));
    }
    assert_eq!(gl_mc_stat("mcserver_stat", -1), Err(SqlGeneratorError::InvalidLevel));
}

#[test]
fn gl_mc_stat_level_zero_exact() {
    let q = gl_mc_stat("sysytemdirect_stat", 0).unwrap();
    assert!(q.contains("FLOOR(UNIX_TIMESTAMP(create_time) / 1) * 1)"));
    assert!(q.contains("INTERVAL 300 SECOND) AND deleted = 0"));
    assert!(q.contains("FROM sysytemdirect_stat\n"));
}

#[test]
fn current_general_cpu_average() {
    assert_eq!(
        generate_current_general(CompressionType::Average, DataType::CPU, "ecs_stat", 300),
        "SELECT AVG(cpu_usage) FROM ecs_stat WHERE create_time > DATE_SUB(NOW(), INTERVAL 300 SECOND) AND deleted = 0;"
    );
}

#[test]
fn current_general_memory_deviation() {
    assert_eq!(
        generate_current_general(
            CompressionType::StandardDeviation,
            DataType::Memory,
            "physical_stat",
            86400
        ),
        "SELECT STDDEV(memory_usage) FROM physical_stat WHERE create_time > DATE_SUB(NOW(), INTERVAL 86400 SECOND) AND deleted = 0;"
    );
}

#[test]
fn current_general_latency_leaves_out_timeouts() {
    assert_eq!(
        generate_current_general(CompressionType::Average, DataType::Latency, "trc_stat", 3600),
        "SELECT AVG(latency) FROM trc_stat WHERE create_time > DATE_SUB(NOW(), INTERVAL 3600 SECOND) AND latency != 5000 AND deleted = 0;"
    );
    assert_eq!(
        generate_current_general(
            CompressionType::StandardDeviation,
            DataType::Latency,
            "mcserver_stat",
            0
        ),
        "SELECT STDDEV(latency) FROM mcserver_stat WHERE create_time > DATE_SUB(NOW(), INTERVAL 0 SECOND) AND latency != 5000 AND deleted = 0;"
    );
}

#[test]
fn current_general_negative_intervals() {
    for interval in [-1, -42, -2147483647, i32::MIN] {
        let expected = format!(
            "SELECT AVG(cpu_usage) FROM t WHERE create_time > DATE_SUB(NOW(), INTERVAL {} SECOND) AND deleted = 0;",
            interval
        );
        assert_eq!(
            generate_current_general(CompressionType::Average, DataType::CPU, "t", interval),
            expected
        );
    }
}

#[test]
fn gl_current_general_at_each_level() {
    for (level, window, _) in LEVELS {
        assert_eq!(
            gl_current_general(CompressionType::StandardDeviation, DataType::CPU, "ecs_stat", level),
            Ok(format!(
                "SELECT STDDEV(cpu_usage) FROM ecs_stat WHERE create_time > DATE_SUB(NOW(), INTERVAL {} SECOND) AND deleted = 0;",
                window
            ))
        );
    }
    assert_eq!(
        gl_current_general(CompressionType::Average, DataType::Latency, "trc_stat", 9),
        Err(SqlGeneratorError::InvalidLevel)
    );
}

#[test]
fn current_players_query() {
    assert_eq!(
        generate_current_players("mcserver_stat"),
        "SELECT players FROM mcserver_stat WHERE deleted = 0 ORDER BY create_time DESC LIMIT 1;"
    );
}

#[test]
fn invalid_level_message() {
    assert_eq!(SqlGeneratorError::InvalidLevel.message(), "Invalid level");
}

#[test]
fn decimal_string_matches_std() {
    let mut values = vec![0, 1, 9, 10, 11, 99, 100, 101, 300, 105120, 31536000, i32::MAX, i32::MIN];
    for v in -1000..1000 {
        values.push(v);
    }
    for v in values {
        assert_eq!(decimal_string(v), v.to_string());
        assert_eq!(decimal_string(v).parse::<i32>().unwrap(), v);
    }
}

#[test]
fn decimal_string_exact_values() {
    assert_eq!(decimal_string(0), "0");
    assert_eq!(decimal_string(-7), "-7");
    assert_eq!(decimal_string(864000), "864000");
    assert_eq!(decimal_string(i32::MIN), "-2147483648");
    assert_eq!(decimal_string(i32::MAX), "2147483647");
}
