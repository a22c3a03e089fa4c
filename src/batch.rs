use vstd::prelude::*;
use crate::error::DownloadError;

verus! {

/// The entry of a batch's result list for `url`: the success message, or the
/// error tagged with the URL.
pub open spec fn entry_text(url: Seq<char>, outcome: Result<String, DownloadError>) -> Seq<char> {
    match outcome {
        Ok(m) => m@,
        Err(e) => "Error for "@ + url + ": "@ + e.text(),
    }
}

/// The result-list entry for one download of a batch.
pub fn batch_entry(url: &str, outcome: &Result<String, DownloadError>) -> (r: String)
    ensures
        r@ == entry_text(url@, *outcome),
{
    match outcome {
        Ok(m) => String::from_str(m.as_str()),
        Err(e) => {
            let mut r = String::from_str("Error for ");
            r.append(url);
            r.append(": ");
            let text = e.message();
            r.append(text.as_str());
            r
        },
    }
}

/// The result list of a batch: one entry per URL, in the order of `urls`,
/// whatever each download's outcome.
pub fn collect_results(urls: &Vec<String>, outcomes: &Vec<Result<String, DownloadError>>) -> (r:
    Vec<String>)
    requires
        urls@.len() == outcomes@.len(),
    ensures
        r@.len() == urls@.len(),
        forall|i: int| 0 <= i < r@.len() ==> #[trigger] r@[i]@ == entry_text(urls@[i]@, outcomes@[i]),
{
    let mut r: Vec<String> = Vec::new();
    let mut i: usize = 0;
    while i < urls.len()
        invariant
            urls@.len() == outcomes@.len(),
            i <= urls@.len(),
            r@.len() == i,
            forall|j: int| 0 <= j < i ==> #[trigger] r@[j]@ == entry_text(urls@[j]@, outcomes@[j]),
        decreases urls@.len() - i,
    {
        let entry = batch_entry(urls[i].as_str(), &outcomes[i]);
        r.push(entry);
        i += 1;
    }
    r
}

} // verus!
