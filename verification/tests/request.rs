use trade_feed::config::Config;
use trade_feed::request::{upgrade_request, Header, FEED_URL};

fn header(name: &str, value: &str) -> Header {
    Header { name: name.to_string(), value: value.to_string() }
}

#[test]
fn upgrade_request_carries_the_four_headers() {
    let config = Config {
        csgoroll_session: "session=xyz".to_string(),
        cf_clearance: "cf".to_string(),
        capsolver_api_key: "key".to_string(),
        csgoroll_api_token: "tok".to_string(),
    };
    let request = upgrade_request(&config);
    assert_eq!(request.url, "wss://router.csgoroll.com/ws");
    assert_eq!(FEED_URL, "wss://router.csgoroll.com/ws");
    assert_eq!(
        request.headers,
        vec![
            header("Sec-WebSocket-Protocol", "graphql-transport-ws"),
            header("Origin", "https://www.csgoroll.com"),
            header("Cookie", "session=xyz"),
            header(
                "User-Agent",
                "Mozilla/5.0 (Windows NT 10.0; Win64; x64) AppleWebKit/537.36 (KHTML, like Gecko) Chrome/133.0.0.0 Safari/537.36"
            ),
        ]
    );
}
