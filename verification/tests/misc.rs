use exercises::bulk::filled_bytes;
use exercises::cdl::CDL;
use exercises::duration::{decimal_string, format_duration};
use exercises::guessing::{guess_outcome, GuessOutcome};
use exercises::http::{classify_request, render_response, response_meta, RequestKind};

#[test]
fn decimal_strings() {
    assert_eq!(decimal_string(0), "0");
    assert_eq!(decimal_string(7), "7");
    assert_eq!(decimal_string(42), "42");
    assert_eq!(decimal_string(1000), "1000");
    assert_eq!(decimal_string(987654321), "987654321");
}

#[test]
fn duration_tiers() {
    assert_eq!(format_duration(0), "0ns");
    assert_eq!(format_duration(999), "999ns");
    assert_eq!(format_duration(1_000), "1.0\u{3bc}s");
    assert_eq!(format_duration(1_500), "1.5\u{3bc}s");
    assert_eq!(format_duration(999_949), "999.9\u{3bc}s");
    assert_eq!(format_duration(999_950), "1000.0\u{3bc}s");
    assert_eq!(format_duration(2_340_000), "2.3ms");
    assert_eq!(format_duration(2_360_000), "2.4ms");
    assert_eq!(format_duration(1_000_000_000), "1.00s");
    assert_eq!(format_duration(1_234_567_890), "1.23s");
    assert_eq!(format_duration(60_000_000_000), "60.00s");
}

#[test]
fn classify_request_lines() {
    assert_eq!(classify_request("GET / HTTP/1.1"), RequestKind::Home);
    assert_eq!(classify_request("GET / HTTP/1.0"), RequestKind::Home);
    assert_eq!(classify_request("GET /missing HTTP/1.1"), RequestKind::NotFound);
    assert_eq!(classify_request("POST /form HTTP/1.0"), RequestKind::NotFound);
    assert_eq!(classify_request("nonsense"), RequestKind::BadRequest);
    assert_eq!(classify_request(""), RequestKind::BadRequest);
}

#[test]
fn response_meta_per_kind() {
    assert_eq!(
        response_meta(RequestKind::Home),
        ("HTTP/1.1 200 OK", "Content-Type: text/html")
    );
    assert_eq!(
        response_meta(RequestKind::NotFound),
        ("HTTP/1.1 404 Not found", "Content-Type: text/html")
    );
    assert_eq!(
        response_meta(RequestKind::BadRequest),
        ("HTTP/1.1 400 Bad request", "Content-Type: text/plain")
    );
}

#[test]
fn rendered_response_is_exact() {
    let r = render_response("HTTP/1.1 200 OK", "Content-Type: text/plain", "hello");
    assert_eq!(
        r,
        "HTTP/1.1 200 OK\r\nContent-Type: text/plain\r\nContent-Length: 5\r\n\r\nhello"
    );
}

#[test]
fn filled_buffer() {
    let v = filled_bytes(5, b'A');
    assert_eq!(v, vec![b'A'; 5]);
    assert_eq!(filled_bytes(0, b'x'), Vec::<u8>::new());
}

#[test]
fn guessing_verdicts() {
    assert_eq!(guess_outcome(10, 50), GuessOutcome::TooSmall);
    assert_eq!(guess_outcome(80, 50), GuessOutcome::TooBig);
    assert_eq!(guess_outcome(50, 50), GuessOutcome::Win);
}

#[test]
fn cdl_add_builds_a_cycle() {
    let mut g: CDL<i32> = CDL::new();
    let idx_1 = g.add(1);
    let idx_2 = g.add(2);
    let idx_3 = g.add(3);
    assert_eq!((idx_1, idx_2, idx_3), (0, 1, 2));

    // 0 -> 1 -> 2 -> 0, both ways round.
    let n0 = g.get_node(0).unwrap();
    assert_eq!((n0.value, n0.next, n0.prev), (1, 1, 2));
    let n1 = g.get_node(1).unwrap();
    assert_eq!((n1.value, n1.next, n1.prev), (2, 2, 0));
    let n2 = g.get_node(2).unwrap();
    assert_eq!((n2.value, n2.next, n2.prev), (3, 0, 1));
    assert!(g.get_node(3).is_none());
}

#[test]
fn cdl_single_node_points_at_itself() {
    let mut g: CDL<&str> = CDL::new();
    let idx = g.add("only");
    let n = g.get_node(idx).unwrap();
    assert_eq!(n.next, idx);
    assert_eq!(n.prev, idx);
    assert_eq!(n.index, idx);
}

#[test]
fn cdl_mutate_through_node_handle() {
    let mut g: CDL<i32> = CDL::new();
    let (idx_1, idx_2, idx_3) = (g.add(1), g.add(2), g.add(3));
    {
        let node_3 = g.get_node_mut(idx_3).unwrap();
        node_3.value *= 10;
    }
    assert_eq!(g.get_node(idx_3).unwrap().value, 30);
    assert_eq!(g.get_node(idx_1).unwrap().value, 1);
    assert!(g.get_node_mut(idx_2).is_some());
    assert!(g.get_node_mut(99).is_none());
}

#[test]
fn cdl_insert_after() {
    let mut g: CDL<i32> = CDL::new();
    let a = g.add(1);
    let b = g.add(2);
    // Splice 9 in between 1 and 2.
    let k = g.add_after_idx(a, 9).unwrap();
    assert_eq!(k, 2);
    assert_eq!(g.get_node(a).unwrap().next, k);
    assert_eq!(g.get_node(k).unwrap().next, b);
    assert_eq!(g.get_node(k).unwrap().prev, a);
    assert_eq!(g.get_node(b).unwrap().prev, k);
    assert!(g.add_after_idx(42, 5).is_none());

    // Splicing after a copied node handle works the same way.
    let node_k = CdlNodeCopy::of(&g, k);
    let m = g.add_after_node(&node_k.node, 7);
    assert_eq!(g.get_node(k).unwrap().next, m);
    assert_eq!(g.get_node(m).unwrap().prev, k);
    assert_eq!(g.get_node(m).unwrap().next, b);
}

struct CdlNodeCopy {
    node: exercises::cdl::CDLNode<i32>,
}

impl CdlNodeCopy {
    fn of(g: &CDL<i32>, idx: usize) -> CdlNodeCopy {
        let n = g.get_node(idx).unwrap();
        CdlNodeCopy {
            node: exercises::cdl::CDLNode {
                value: n.value,
                next: n.next,
                prev: n.prev,
                index: n.index,
            },
        }
    }
}
