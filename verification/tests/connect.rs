use periphery::connect::{connect_timeout_message, login_query, periphery_endpoint, rejection_message};

#[test]
fn connect_timeout_message_names_whole_seconds() {
    assert_eq!(
        connect_timeout_message(1),
        "Timed out after 1 seconds connecting to Core websocket"
    );
    assert_eq!(
        connect_timeout_message(15),
        "Timed out after 15 seconds connecting to Core websocket"
    );
    assert_eq!(
        connect_timeout_message(0),
        "Timed out after 0 seconds connecting to Core websocket"
    );
    assert_eq!(
        connect_timeout_message(u64::MAX),
        "Timed out after 18446744073709551615 seconds connecting to Core websocket"
    );
}

#[test]
fn rejections_explain_the_status() {
    assert_eq!(
        rejection_message(404, "edge-1").unwrap(),
        "404 Not Found: Server 'edge-1' does not exist."
    );
    assert_eq!(
        rejection_message(400, "edge-1").unwrap(),
        "400 Bad Request: Server 'edge-1' is disabled or configured to make Core → Periphery connection"
    );
    assert_eq!(
        rejection_message(401, "edge-1").unwrap(),
        "401 Unauthorized: Only one Server connected as 'edge-1' is allowed. Or the Core reverse proxy needs to forward host and websocket headers."
    );
    assert!(rejection_message(500, "edge-1").is_none());
    assert!(rejection_message(200, "edge-1").is_none());
}

#[test]
fn login_query_percent_encodes_the_server_name() {
    assert_eq!(login_query("edge-1"), "server=edge-1");
    assert_eq!(login_query("my server&x=1"), "server=my%20server%26x%3D1");
    assert_eq!(login_query("café"), "server=caf%C3%A9");
    assert_eq!(login_query(""), "server=");
}

#[test]
fn endpoint_appends_the_periphery_path() {
    assert_eq!(
        periphery_endpoint("wss://core.example.com", "server=edge-1"),
        "wss://core.example.com/ws/periphery?server=edge-1"
    );
}
