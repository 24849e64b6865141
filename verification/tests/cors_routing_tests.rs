use sui_rpc::cors::{
    allowed_origins, cors_config, AllowedOrigins, APP_NAME_HEADER, CLIENT_SDK_TYPE_HEADER,
    CLIENT_SDK_VERSION_HEADER, CLIENT_TARGET_API_VERSION_HEADER, CONTENT_TYPE_HEADER,
};
use sui_rpc::error::ServerError;
use sui_rpc::routing::{disable_routing_flag, routes_for, HttpMethod, RouteHandler, ServerType};

fn pairs(server_type: Option<ServerType>) -> Vec<(HttpMethod, RouteHandler, String)> {
    routes_for(server_type).into_iter().map(|r| (r.method, r.handler, r.path)).collect()
}

fn list(items: &[&str]) -> AllowedOrigins {
    AllowedOrigins::List(items.iter().map(|s| s.to_string()).collect())
}

#[test]
fn websocket_routes_get_to_upgrade() {
    assert_eq!(
        pairs(Some(ServerType::WebSocket)),
        vec![(HttpMethod::Get, RouteHandler::WebSocketUpgrade, "/".to_string())]
    );
}

#[test]
fn http_routes_post_to_json_rpc() {
    assert_eq!(
        pairs(Some(ServerType::Http)),
        vec![(HttpMethod::Post, RouteHandler::JsonRpc, "/".to_string())]
    );
}

#[test]
fn no_choice_routes_http_then_websocket() {
    let mut both = pairs(Some(ServerType::Http));
    both.extend(pairs(Some(ServerType::WebSocket)));
    assert_eq!(pairs(None), both);
}

#[test]
fn routing_is_disabled_only_by_true() {
    assert!(!disable_routing_flag(&None));
    assert!(disable_routing_flag(&Some("true".to_string())));
    assert!(!disable_routing_flag(&Some("false".to_string())));
    assert!(!disable_routing_flag(&Some("TRUE".to_string())));
    assert!(!disable_routing_flag(&Some("1".to_string())));
    assert!(!disable_routing_flag(&Some("".to_string())));
}

#[test]
fn unset_origin_allows_any() {
    assert_eq!(allowed_origins(&None), Ok(AllowedOrigins::Any));
}

#[test]
fn origins_split_at_commas() {
    assert_eq!(
        allowed_origins(&Some("https://a.io,https://b.io".to_string())),
        Ok(list(&["https://a.io", "https://b.io"]))
    );
    assert_eq!(allowed_origins(&Some("one".to_string())), Ok(list(&["one"])));
}

#[test]
fn empty_pieces_are_kept() {
    assert_eq!(allowed_origins(&Some("".to_string())), Ok(list(&[""])));
    assert_eq!(allowed_origins(&Some("a,".to_string())), Ok(list(&["a", ""])));
    assert_eq!(allowed_origins(&Some(",,b".to_string())), Ok(list(&["", "", "b"])));
}

#[test]
fn pieces_join_back_to_the_value() {
    for value in ["x,y,z", "", ",", "a,,b", "héllo,wörld"] {
        match allowed_origins(&Some(value.to_string())).unwrap() {
            AllowedOrigins::List(parts) => {
                assert_eq!(parts.join(","), value);
                assert!(parts.iter().all(|p| !p.contains(',')));
            }
            AllowedOrigins::Any => panic!("a set value gives a list"),
        }
    }
}

#[test]
fn tabs_spaces_and_non_ascii_are_valid_origins() {
    assert_eq!(
        allowed_origins(&Some("a b\tc,é".to_string())),
        Ok(list(&["a b\tc", "é"]))
    );
}

#[test]
fn control_characters_are_invalid_origins() {
    assert_eq!(
        allowed_origins(&Some("https://a.io,https://b\n.io".to_string())),
        Err(ServerError::InvalidHeaderValue)
    );
    assert_eq!(allowed_origins(&Some("\u{7f}".to_string())), Err(ServerError::InvalidHeaderValue));
    assert_eq!(allowed_origins(&Some("a\u{1f}".to_string())), Err(ServerError::InvalidHeaderValue));
}

#[test]
fn cors_allows_post_and_the_client_headers() {
    let cors = cors_config(&None).unwrap();
    assert_eq!(cors.allow_methods, vec![HttpMethod::Post]);
    assert_eq!(cors.allow_origin, AllowedOrigins::Any);
    assert_eq!(
        cors.allow_headers,
        vec![
            "content-type".to_string(),
            "client-sdk-type".to_string(),
            "client-sdk-version".to_string(),
            "client-target-api-version".to_string(),
            "app-name".to_string(),
        ]
    );
    assert_eq!(APP_NAME_HEADER, "app-name");
    assert_eq!(CLIENT_SDK_TYPE_HEADER, "client-sdk-type");
    assert_eq!(CLIENT_SDK_VERSION_HEADER, "client-sdk-version");
    assert_eq!(CLIENT_TARGET_API_VERSION_HEADER, "client-target-api-version");
    assert_eq!(CONTENT_TYPE_HEADER, "content-type");
}

#[test]
fn cors_fails_on_invalid_origin() {
    assert!(matches!(
        cors_config(&Some("ok,\u{0}".to_string())),
        Err(ServerError::InvalidHeaderValue)
    ));
}
