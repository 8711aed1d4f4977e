use thermo_report::request::{
    write_http_request_string, REQUEST_CAPACITY, REQUEST_HEAD, REQUEST_TAIL,
};
use thermo_report::sensor::decode;

fn line_for(hundredths: u32) -> heapless::String<128> {
    let mut buffer: heapless::String<128> = heapless::String::new();
    write_http_request_string(&mut buffer, hundredths);
    buffer
}

#[test]
fn request_line_for_23_456_degrees() {
    let degrees: f32 = 23.456;
    let hundredths: u32 = (degrees * 100.0).round() as u32;
    assert_eq!(hundredths, 2346);
    assert_eq!(
        line_for(hundredths).as_str(),
        "GET /temp/1/23.46 HTTP/1.0\r\nHost: 192.168.1.103:8080\r\n\r\n"
    );
}

#[test]
fn request_line_matches_float_formatting_for_every_sample() {
    let mut count: u16 = 0;
    while count <= 8191 {
        let sample = decode(count << 3).unwrap();
        let degrees: f32 = f32::from(count) * 0.25;
        let expected: String =
            format!("GET /temp/1/{:.2} HTTP/1.0\r\nHost: 192.168.1.103:8080\r\n\r\n", degrees);
        assert_eq!(line_for(sample.hundredths()).as_str(), expected.as_str());
        count += 1;
    }
}

#[test]
fn zero_keeps_its_leading_digit() {
    assert_eq!(
        line_for(0).as_str(),
        "GET /temp/1/0.00 HTTP/1.0\r\nHost: 192.168.1.103:8080\r\n\r\n"
    );
    assert_eq!(
        line_for(5).as_str(),
        "GET /temp/1/0.05 HTTP/1.0\r\nHost: 192.168.1.103:8080\r\n\r\n"
    );
    assert_eq!(
        line_for(50).as_str(),
        "GET /temp/1/0.50 HTTP/1.0\r\nHost: 192.168.1.103:8080\r\n\r\n"
    );
    assert_eq!(
        line_for(100).as_str(),
        "GET /temp/1/1.00 HTTP/1.0\r\nHost: 192.168.1.103:8080\r\n\r\n"
    );
}

#[test]
fn whole_part_grows_without_padding() {
    assert_eq!(
        line_for(999).as_str(),
        "GET /temp/1/9.99 HTTP/1.0\r\nHost: 192.168.1.103:8080\r\n\r\n"
    );
    assert_eq!(
        line_for(1000).as_str(),
        "GET /temp/1/10.00 HTTP/1.0\r\nHost: 192.168.1.103:8080\r\n\r\n"
    );
    assert_eq!(
        line_for(204_775).as_str(),
        "GET /temp/1/2047.75 HTTP/1.0\r\nHost: 192.168.1.103:8080\r\n\r\n"
    );
    assert_eq!(
        line_for(1_002_003).as_str(),
        "GET /temp/1/10020.03 HTTP/1.0\r\nHost: 192.168.1.103:8080\r\n\r\n"
    );
}

#[test]
fn largest_count_still_fits_the_buffer() {
    let buffer: heapless::String<128> = line_for(u32::MAX);
    assert_eq!(
        buffer.as_str(),
        "GET /temp/1/42949672.95 HTTP/1.0\r\nHost: 192.168.1.103:8080\r\n\r\n"
    );
    assert!(buffer.len() <= REQUEST_CAPACITY);
    assert_eq!(buffer.capacity(), REQUEST_CAPACITY);
}

#[test]
fn buffer_is_overwritten_not_appended_to() {
    let mut buffer: heapless::String<128> = heapless::String::new();
    buffer.push_str("left over from an earlier cycle").unwrap();
    write_http_request_string(&mut buffer, 2350);
    assert_eq!(
        buffer.as_str(),
        "GET /temp/1/23.50 HTTP/1.0\r\nHost: 192.168.1.103:8080\r\n\r\n"
    );
    write_http_request_string(&mut buffer, 1225);
    assert_eq!(
        buffer.as_str(),
        "GET /temp/1/12.25 HTTP/1.0\r\nHost: 192.168.1.103:8080\r\n\r\n"
    );
}

#[test]
fn full_buffer_is_overwritten() {
    let mut buffer: heapless::String<128> = heapless::String::new();
    while buffer.push('x').is_ok() {}
    assert_eq!(buffer.len(), 128);
    write_http_request_string(&mut buffer, 7);
    assert_eq!(
        buffer.as_str(),
        "GET /temp/1/0.07 HTTP/1.0\r\nHost: 192.168.1.103:8080\r\n\r\n"
    );
}

#[test]
fn non_ascii_leftovers_are_overwritten() {
    let mut buffer: heapless::String<128> = heapless::String::new();
    buffer.push_str("23.5 \u{b0}C \u{1f321}").unwrap();
    write_http_request_string(&mut buffer, 2350);
    assert_eq!(
        buffer.as_bytes(),
        b"GET /temp/1/23.50 HTTP/1.0\r\nHost: 192.168.1.103:8080\r\n\r\n"
    );
}

#[test]
fn request_line_has_head_number_and_tail() {
    assert_eq!(REQUEST_HEAD, "GET /temp/1/");
    assert_eq!(REQUEST_TAIL, " HTTP/1.0\r\nHost: 192.168.1.103:8080\r\n\r\n");
    let buffer: heapless::String<128> = line_for(12_345);
    let expected: String = format!("{}{}{}", REQUEST_HEAD, "123.45", REQUEST_TAIL);
    assert_eq!(buffer.as_str(), expected.as_str());
}
