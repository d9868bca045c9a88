use kv_bench_core::record::{
    fin_line, header, render_header_row, render_number_row, MetricsRecord, COLUMN_COUNT,
};

fn sample_record() -> MetricsRecord {
    MetricsRecord {
        time_ms: 1,
        cpu_centi: 2,
        mem_kib: 3,
        disk_space_kib: 4,
        disk_writes_kib: 5,
        disk_reads_kib: 6,
        write_ops: 7,
        point_read_ops: 8,
        range_ops: 9,
        delete_ops: 10,
        write_latency: 11,
        point_read_latency: 12,
        range_latency: 13,
        delete_latency: 14,
        write_rate: 15,
        point_read_rate: 16,
        range_rate: 17,
        delete_rate: 18,
        write_potential: 19,
        point_read_potential: 20,
        range_potential: 21,
        delete_potential: 22,
        write_amp: 23,
        space_amp: 24,
        read_amp: 25,
    }
}

#[test]
fn every_row_matches_the_header_width() {
    // Every data row has exactly as many cells as the header has names.
    let names = header();
    let row = sample_record().fields();
    assert_eq!(names.len(), COLUMN_COUNT);
    assert_eq!(row.len(), COLUMN_COUNT);
    assert_eq!(names.len(), row.len());
}

#[test]
fn header_names_in_row_order() {
    let names = header();
    assert_eq!(names[0], "time_ms");
    assert_eq!(names[1], "cpu");
    assert_eq!(names[5], "disk_reads_kib");
    assert_eq!(names[6], "write_ops");
    assert_eq!(names[22], "write_amp");
    assert_eq!(names[24], "read_amp");
}

#[test]
fn fields_follow_declaration_order() {
    let row = sample_record().fields();
    for (i, v) in row.iter().enumerate() {
        assert_eq!(*v, (i + 1) as u64);
    }
}

#[test]
fn number_row_renders_as_json_array() {
    let vals: Vec<u64> = vec![0, 10, 1234567890];
    let line = render_number_row(&vals);
    assert_eq!(String::from_utf8(line).unwrap(), "[0,10,1234567890]");
}

#[test]
fn empty_number_row_renders_as_empty_array() {
    let vals: Vec<u64> = Vec::new();
    let line = render_number_row(&vals);
    assert_eq!(String::from_utf8(line).unwrap(), "[]");
}

#[test]
fn single_number_row_has_no_comma() {
    let vals: Vec<u64> = vec![u64::MAX];
    let line = render_number_row(&vals);
    assert_eq!(String::from_utf8(line).unwrap(), "[18446744073709551615]");
}

#[test]
fn header_row_renders_as_json_strings() {
    let names: Vec<&'static str> = vec!["a", "bc"];
    let line = render_header_row(&names);
    assert_eq!(String::from_utf8(line).unwrap(), "[\"a\",\"bc\"]");
}

#[test]
fn full_header_line_starts_with_time_ms() {
    let line = render_header_row(&header());
    let text = String::from_utf8(line).unwrap();
    assert!(text.starts_with("[\"time_ms\",\"cpu\","));
    assert!(text.ends_with("\"read_amp\"]"));
    assert_eq!(text.matches(',').count(), COLUMN_COUNT - 1);
}

#[test]
fn sentinel_line_is_fin_true() {
    assert_eq!(fin_line(), "{\"fin\":true}");
}
