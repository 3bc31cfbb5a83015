use gmc_logger::dose::{to_dose_rate, DoseRate};
use gmc_logger::error::PublishError;
use gmc_logger::publish::{
    check_status, request_url, HttpGet, PublishRequest, CONNECT_TIMEOUT_MILLIS,
    READ_TIMEOUT_MILLIS,
};
use gmc_logger::reading::CountReading;

fn check_body(body: String) -> Result<(), PublishError> {
    check_status(200, "OK").unwrap().check_body(body)
}

fn request(account_id: &str, device_id: &str, cpm: u16) -> PublishRequest {
    let count = CountReading { cpm };
    PublishRequest {
        account_id: account_id.to_string(),
        device_id: device_id.to_string(),
        count,
        dose: to_dose_rate(count),
    }
}

#[test]
fn address_holds_the_four_parameters() {
    let get = request("02834", "59046675878", 10).to_get();
    assert_eq!(
        get.url,
        "http://www.GMCmap.com/log2.asp?AID=02834&GID=59046675878&CPM=10&uSV=0.065"
    );
    let query = get.url.split('?').nth(1).unwrap();
    let parameters: Vec<&str> = query.split('&').collect();
    assert_eq!(parameters, vec!["AID=02834", "GID=59046675878", "CPM=10", "uSV=0.065"]);
}

#[test]
fn request_is_a_get_with_both_timeouts() {
    let get = request("1", "2", 0).to_get();
    assert_eq!(
        get,
        HttpGet {
            url: "http://www.GMCmap.com/log2.asp?AID=1&GID=2&CPM=0&uSV=0".to_string(),
            connect_timeout_millis: 10000,
            read_timeout_millis: 2000,
        }
    );
    assert_eq!(CONNECT_TIMEOUT_MILLIS, 10000);
    assert_eq!(READ_TIMEOUT_MILLIS, 2000);
}

#[test]
fn address_takes_the_dose_as_it_is_written() {
    let float_dose: f32 = 10.0 * 6.5 / 1000.0;
    let url = request_url("02834", "59046675878", CountReading { cpm: 10 }, &format!("{}", float_dose));
    assert_eq!(
        url,
        "http://www.GMCmap.com/log2.asp?AID=02834&GID=59046675878&CPM=10&uSV=0.065"
    );
    assert_eq!(
        request_url("a", "b", CountReading { cpm: 65535 }, "x"),
        "http://www.GMCmap.com/log2.asp?AID=a&GID=b&CPM=65535&uSV=x"
    );
}

#[test]
fn identifiers_go_into_the_address_unchanged() {
    assert_eq!(
        request_url("", "", CountReading { cpm: 0 }, ""),
        "http://www.GMCmap.com/log2.asp?AID=&GID=&CPM=0&uSV="
    );
    assert_eq!(
        request_url("a b", "c&d", CountReading { cpm: 7 }, "0.0455"),
        "http://www.GMCmap.com/log2.asp?AID=a b&GID=c&d&CPM=7&uSV=0.0455"
    );
}

#[test]
fn address_reports_the_dose_of_the_request() {
    let custom = PublishRequest {
        account_id: "9".to_string(),
        device_id: "8".to_string(),
        count: CountReading { cpm: 200 },
        dose: DoseRate { ten_thousandths: 13000 },
    };
    assert_eq!(custom.to_get().url, "http://www.GMCmap.com/log2.asp?AID=9&GID=8&CPM=200&uSV=1.3");
}

#[test]
fn success_statuses_let_the_body_be_read() {
    for status in [200u16, 201, 204, 299] {
        let accepted = check_status(status, "OK").unwrap();
        assert_eq!(accepted.status(), status);
        assert_eq!(accepted.check_body("OK.ERR0".to_string()), Ok(()));
    }
}

#[test]
fn a_server_error_is_a_transport_error() {
    assert_eq!(
        check_status(500, "Internal Server Error"),
        Err(PublishError::Transport {
            status: 500,
            status_text: "Internal Server Error".to_string()
        })
    );
}

#[test]
fn every_other_status_is_a_transport_error() {
    for status in [0u16, 100, 199, 300, 301, 400, 404, 499, 502, 599, 65535] {
        assert_eq!(
            check_status(status, "Bad Status"),
            Err(PublishError::Transport { status, status_text: "Bad Status".to_string() })
        );
    }
}

#[test]
fn the_marker_alone_is_a_success() {
    assert_eq!(check_body("OK.ERR0".to_string()), Ok(()));
}

#[test]
fn the_marker_inside_a_page_is_a_success() {
    assert_eq!(check_body("\r\n<!--sendmail.asp-->\r\nOK.ERR0\r\n".to_string()), Ok(()));
    assert_eq!(check_body("Warning! OK.ERR0 Congratulations".to_string()), Ok(()));
}

#[test]
fn an_error_code_is_a_remote_error_with_the_body() {
    assert_eq!(
        check_body("ERR1".to_string()),
        Err(PublishError::RemoteError { body: "ERR1".to_string() })
    );
}

#[test]
fn any_body_without_the_marker_is_a_remote_error() {
    for body in ["", "OK", "OK.ERR", "OK.ERR1", "ok.err0", "ERR2.OK", "OK. ERR0", "Ö.ERR0"] {
        assert_eq!(
            check_body(body.to_string()),
            Err(PublishError::RemoteError { body: body.to_string() })
        );
    }
}

#[test]
fn a_failed_status_leaves_no_body_to_judge() {
    let verdict = check_status(500, "Internal Server Error");
    assert!(verdict.is_err());
    assert_eq!(verdict.ok(), None);
    let verdict = check_status(404, "OK.ERR0");
    assert_eq!(
        verdict,
        Err(PublishError::Transport { status: 404, status_text: "OK.ERR0".to_string() })
    );
}

#[test]
fn an_accepted_status_does_not_make_up_for_the_body() {
    let accepted = check_status(200, "OK.ERR0").unwrap();
    assert_eq!(
        accepted.check_body("ERR2".to_string()),
        Err(PublishError::RemoteError { body: "ERR2".to_string() })
    );
}
