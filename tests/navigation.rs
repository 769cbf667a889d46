use akatsuki::navigation::{extract_nav_links, extract_routes, is_list_route, missing_nav_links};

#[test]
fn test_is_list_route() {
    assert!(is_list_route("/"));
    assert!(is_list_route("/templates"));
    assert!(is_list_route("/examples"));
    assert!(is_list_route("/products"));

    assert!(!is_list_route("/templates/:id"));
    assert!(!is_list_route("/templates/create"));
    assert!(!is_list_route("/templates/:id/edit"));
    assert!(!is_list_route("/login"));
    assert!(!is_list_route("/signup"));
    assert!(!is_list_route("/admin"));
    assert!(!is_list_route("/admin/models"));
    assert!(!is_list_route("/type-test"));
}

#[test]
fn action_and_utility_routes_are_not_lists() {
    assert!(!is_list_route("/posts/new"));
    assert!(!is_list_route("/reset-password"));
    assert!(!is_list_route("/debug/state"));
    assert!(is_list_route("/posts/newest"));
}

#[test]
fn routes_are_read_from_route_declarations() {
    let app = "<Routes>\n  <Route path=\"/\" element={<Home />} />\n  <Route path=\"/posts\" element={<Posts />} />\n  {/* akatsuki-ignore-next-line navigation */}\n  <Route path=\"/hidden\" element={<Hidden />} />\n  <Route  path=\"/posts/:id\" element={<Post />} />\n</Routes>\n";
    assert_eq!(extract_routes(app), vec!["/posts", "/posts/:id"]);
}

#[test]
fn missing_links_are_list_routes_without_a_link() {
    let nav = "<Link to=\"/posts\">Posts</Link> <Link to=\"/about\">About</Link>";
    let links = extract_nav_links(nav);
    assert_eq!(links, vec!["/posts", "/about"]);
    let routes = vec!["/posts".to_string(), "/examples".to_string(), "/admin".to_string(), "/posts/:id".to_string()];
    assert_eq!(missing_nav_links(&routes, &links), vec!["/examples"]);
}
