//! From a validated site list to rendered documents, and from per-site
//! outcomes to one overall verdict.
//!
//! `generate_documents` is the computing half of a generation run: it
//! checks every record loudly and renders one document per site. Writing
//! the documents to disk, one concurrent task per site, belongs to the
//! binary around the library; each task reports back one outcome, and
//! `aggregate_outcomes` turns the batch of outcomes into the overall
//! result, keeping every failure rather than only the first.

use vstd::prelude::*;

use crate::config::{Config, Site, check_site};
use crate::render::{render_spec, render_site};

verus! {

/// One rendered document, ready to be written: the output file name
/// (relative to the output root) and the full text.
#[derive(Debug)]
pub struct Document {
    /// The file name, `<domain>.conf`.
    pub filename: String,
    /// The rendered text.
    pub content: String,
}

/// Why one site, or a whole run, failed.
#[derive(Debug)]
pub enum GenerationError {
    /// A record reached the generator unvalidated: empty domain, a repeated
    /// header name, or a status code outside the redirection class.
    InvalidConfig { domain: String },
    /// Template evaluation failed for the named domain.
    Render { domain: String, message: String },
    /// A directory or file could not be created or written.
    Io { domain: String, path: String, message: String },
    /// A task ended abnormally instead of reporting a result.
    TaskFault { domain: String },
}

/// An exact copy of one failure report.
pub fn clone_error(e: &GenerationError) -> (r: GenerationError)
    ensures
        r == *e,
{
    match e {
        GenerationError::InvalidConfig { domain } => GenerationError::InvalidConfig {
            domain: domain.clone(),
        },
        GenerationError::Render { domain, message } => GenerationError::Render {
            domain: domain.clone(),
            message: message.clone(),
        },
        GenerationError::Io { domain, path, message } => GenerationError::Io {
            domain: domain.clone(),
            path: path.clone(),
            message: message.clone(),
        },
        GenerationError::TaskFault { domain } => GenerationError::TaskFault {
            domain: domain.clone(),
        },
    }
}

/// `doc` is exactly the document owed to `site`: the file name is
/// `<domain>.conf` and the text is the rendered document.
pub open spec fn document_for(site: Site, doc: Document) -> bool {
    &&& doc.filename@ == site.domain@ + ".conf"@
    &&& doc.content@ == render_spec(site)
}

/// `docs` holds exactly the documents owed to `sites`, in input order.
pub open spec fn documents_match(sites: Seq<Site>, docs: Seq<Document>) -> bool {
    &&& docs.len() == sites.len()
    &&& forall|i: int| 0 <= i < sites.len() ==> document_for(sites[i], #[trigger] docs[i])
}

/// The position of the first invalid site, or `sites.len()` if all are valid.
pub open spec fn first_invalid(sites: Seq<Site>) -> int
    decreases sites.len(),
{
    if sites.len() == 0 {
        0
    } else if !sites[0].wf() {
        0
    } else {
        1 + first_invalid(sites.skip(1))
    }
}

/// `first_invalid` names the first position whose site is invalid.
proof fn lemma_first_invalid_at(sites: Seq<Site>, i: int)
    requires
        0 <= i < sites.len(),
        !sites[i].wf(),
        forall|j: int| 0 <= j < i ==> (#[trigger] sites[j]).wf(),
    ensures
        first_invalid(sites) == i,
    decreases i,
{
    if i == 0 {
    } else {
        assert(sites[0].wf());
        let rest = sites.skip(1);
        assert(rest[i - 1] == sites[i]);
        assert forall|j: int| 0 <= j < i - 1 implies (#[trigger] rest[j]).wf() by {
            assert(rest[j] == sites[j + 1]);
        }
        lemma_first_invalid_at(rest, i - 1);
    }
}

/// Checks every record and renders one document per site, in input order.
/// An unvalidated record fails the whole run before anything is rendered,
/// naming the first offending domain.
pub fn generate_documents(config: &Config) -> (r: Result<Vec<Document>, GenerationError>)
    ensures
        r is Ok <==> config.wf(),
        (r matches Ok(docs) ==> documents_match(config.sites@, docs@)),
        (r matches Err(e) ==> e matches GenerationError::InvalidConfig { domain } && domain@
            == config.sites@[first_invalid(config.sites@)].domain@),
{
    let n = config.sites.len();
    let mut i: usize = 0;
    while i < n
        invariant
            n == config.sites@.len(),
            i <= n,
            forall|j: int| 0 <= j < i ==> (#[trigger] config.sites@[j]).wf(),
        decreases n - i,
    {
        if !check_site(&config.sites[i]) {
            proof {
                lemma_first_invalid_at(config.sites@, i as int);
            }
            return Err(
                GenerationError::InvalidConfig { domain: config.sites[i].domain.clone() },
            );
        }
        i = i + 1;
    }
    let mut docs: Vec<Document> = Vec::new();
    let mut k: usize = 0;
    while k < n
        invariant
            n == config.sites@.len(),
            k <= n,
            docs@.len() == k,
            forall|j: int| 0 <= j < n ==> (#[trigger] config.sites@[j]).wf(),
            forall|j: int| 0 <= j < k ==> document_for(config.sites@[j], #[trigger] docs@[j]),
        decreases n - k,
    {
        let site = &config.sites[k];
        let filename = site.filename();
        let content = render_site(site);
        docs.push(Document { filename, content });
        k = k + 1;
    }
    Ok(docs)
}

/// The failures among a batch of outcomes, in batch order.
pub open spec fn failures_of(
    outcomes: Seq<Result<String, GenerationError>>,
) -> Seq<GenerationError>
    decreases outcomes.len(),
{
    if outcomes.len() == 0 {
        Seq::empty()
    } else {
        let rest = failures_of(outcomes.drop_last());
        match outcomes.last() {
            Ok(path) => rest,
            Err(e) => rest.push(e),
        }
    }
}

/// A batch has no failures exactly when every outcome succeeded.
pub proof fn lemma_no_failures_iff_all_ok(outcomes: Seq<Result<String, GenerationError>>)
    ensures
        failures_of(outcomes).len() == 0 <==> (forall|i: int|
            0 <= i < outcomes.len() ==> (#[trigger] outcomes[i]) is Ok),
    decreases outcomes.len(),
{
    if outcomes.len() == 0 {
    } else {
        let d = outcomes.drop_last();
        lemma_no_failures_iff_all_ok(d);
        assert(forall|i: int| 0 <= i < d.len() ==> #[trigger] d[i] == outcomes[i]);
        if failures_of(outcomes).len() == 0 {
            assert(outcomes.last() is Ok);
            assert(failures_of(d).len() == 0);
            assert forall|i: int| 0 <= i < outcomes.len() implies (#[trigger] outcomes[i]) is Ok by {
                if i < outcomes.len() - 1 {
                    assert(d[i] is Ok);
                } else {
                    assert(outcomes[i] == outcomes.last());
                }
            }
        } else {
            if forall|i: int| 0 <= i < outcomes.len() ==> (#[trigger] outcomes[i]) is Ok {
                assert(outcomes.last() is Ok);
                assert(forall|i: int| 0 <= i < d.len() ==> (#[trigger] d[i]) is Ok);
                assert(false);
            }
        }
    }
}

/// A failure is never lost in the join: whenever one outcome of a batch
/// failed, its error stands in the reported failures. Together with
/// `documents_match`, which owes each site its document regardless of its
/// siblings, one broken site leaves the other sites' documents untouched
/// while its own failure is surfaced.
pub proof fn lemma_failure_reported(outcomes: Seq<Result<String, GenerationError>>, i: int)
    requires
        0 <= i < outcomes.len(),
        outcomes[i] is Err,
    ensures
        failures_of(outcomes).contains(outcomes[i]->Err_0),
    decreases outcomes.len(),
{
    let rest = failures_of(outcomes.drop_last());
    let e = outcomes[i]->Err_0;
    if i == outcomes.len() - 1 {
        assert(outcomes.last() == outcomes[i]);
        let fs = rest.push(e);
        assert(fs[fs.len() - 1] == e);
        assert(fs.contains(e));
    } else {
        let d = outcomes.drop_last();
        assert(d[i] == outcomes[i]);
        lemma_failure_reported(d, i);
        let k = choose|k: int| 0 <= k < rest.len() && rest[k] == e;
        match outcomes.last() {
            Ok(path) => {
                assert(failures_of(outcomes) == rest);
            },
            Err(last_err) => {
                let fs = rest.push(last_err);
                assert(fs[k] == e);
                assert(fs.contains(e));
            },
        }
    }
}

/// Joins a batch of per-site outcomes into the overall verdict. A failed
/// task never hides a sibling's outcome: the run succeeds exactly when
/// every task did, and otherwise every failure is reported, in batch order.
pub fn aggregate_outcomes(outcomes: &Vec<Result<String, GenerationError>>) -> (r: Result<
    (),
    Vec<GenerationError>,
>)
    ensures
        r is Ok <==> (forall|i: int|
            0 <= i < outcomes@.len() ==> (#[trigger] outcomes@[i]) is Ok),
        (r matches Err(es) ==> es@ == failures_of(outcomes@) && es@.len() > 0),
{
    let n = outcomes.len();
    let mut failures: Vec<GenerationError> = Vec::new();
    let mut i: usize = 0;
    proof {
        assert(outcomes@.take(0) =~= Seq::<Result<String, GenerationError>>::empty());
    }
    while i < n
        invariant
            n == outcomes@.len(),
            i <= n,
            failures@ == failures_of(outcomes@.take(i as int)),
        decreases n - i,
    {
        match &outcomes[i] {
            Ok(path) => {},
            Err(e) => {
                failures.push(clone_error(e));
            },
        }
        proof {
            let taken = outcomes@.take(i as int + 1);
            assert(taken.drop_last() =~= outcomes@.take(i as int));
            assert(taken.last() == outcomes@[i as int]);
        }
        i = i + 1;
    }
    proof {
        assert(outcomes@.take(n as int) =~= outcomes@);
        lemma_no_failures_iff_all_ok(outcomes@);
    }
    if failures.len() == 0 {
        Ok(())
    } else {
        Err(failures)
    }
}

/// Running the generator twice over an unchanged site list yields
/// byte-identical documents: each document is a function of its record
/// alone, so a re-run overwrites every file with the same bytes.
pub proof fn lemma_rerun_byte_identical(
    sites: Seq<Site>,
    first_run: Seq<Document>,
    second_run: Seq<Document>,
)
    requires
        documents_match(sites, first_run),
        documents_match(sites, second_run),
    ensures
        first_run.len() == second_run.len(),
        forall|i: int|
            0 <= i < first_run.len() ==> (#[trigger] first_run[i]).filename@
                == second_run[i].filename@ && first_run[i].content@ == second_run[i].content@,
{
    assert forall|i: int|
        0 <= i < first_run.len() implies (#[trigger] first_run[i]).filename@
        == second_run[i].filename@ && first_run[i].content@ == second_run[i].content@ by {
        assert(document_for(sites[i], first_run[i]));
        assert(document_for(sites[i], second_run[i]));
    }
}

} // verus!
