//! Batched multi-ID requests: chunk sizes and input-order recombination.

use aspotify::batch::{chunked_ids, combined_response, join_comma};
use aspotify::Response;

#[test]
fn batch_of_120_with_cap_50_issues_3_requests_in_order() {
    let ids: Vec<String> = (0..120).map(|i| format!("id{:03}", i)).collect();
    let chunks = chunked_ids(&ids, 50);
    assert_eq!(chunks.len(), 3, "120 IDs under a cap of 50 take three requests");
    assert_eq!(chunks[0].len(), 50);
    assert_eq!(chunks[1].len(), 50);
    assert_eq!(chunks[2].len(), 20);

    // Pretend the second chunk's response arrived before the first's:
    // completion order does not matter, because each response is slotted
    // by its chunk.
    let mut responses: Vec<Option<Response<Vec<String>>>> = vec![None, None, None];
    for k in [1usize, 0, 2] {
        responses[k] = Some(Response { data: chunks[k].clone(), expires: 1_000 + k as u64 });
    }
    let parts: Vec<Response<Vec<String>>> = responses.into_iter().map(|r| r.unwrap()).collect();
    let combined = combined_response(parts, 0);
    assert_eq!(combined.data, ids, "the combined output keeps the input order");
    assert_eq!(combined.expires, 1_002);
}

#[test]
fn chunks_concatenate_to_the_input() {
    let ids: Vec<String> = (0..7).map(|i| i.to_string()).collect();
    let chunks = chunked_ids(&ids, 3);
    assert_eq!(chunks.len(), 3);
    let flattened: Vec<String> = chunks.into_iter().flatten().collect();
    assert_eq!(flattened, ids);
}

#[test]
fn chunk_edges() {
    assert_eq!(chunked_ids(&vec![], 20).len(), 0);
    let one = chunked_ids(&vec!["a".to_string()], 1);
    assert_eq!(one, vec![vec!["a".to_string()]]);
    let exact: Vec<String> = (0..40).map(|i| i.to_string()).collect();
    let chunks = chunked_ids(&exact, 20);
    assert_eq!(chunks.len(), 2);
    assert!(chunks.iter().all(|c| c.len() == 20));
}

#[test]
fn empty_batch_expires_now() {
    let combined: Response<Vec<String>> = combined_response(vec![], 77);
    assert!(combined.data.is_empty());
    assert_eq!(combined.expires, 77);
}

#[test]
fn ids_join_with_commas() {
    assert_eq!(join_comma(&vec![]), "");
    assert_eq!(join_comma(&vec!["a".to_string()]), "a");
    assert_eq!(
        join_comma(&vec!["a".to_string(), "b".to_string(), "c".to_string()]),
        "a,b,c"
    );
}
