//! The content tree: a magazine of sections, each an ordered list of pages.
use std::collections::HashMap;
use vstd::multiset::Multiset;
use vstd::prelude::*;

verus! {

/// One displayable page: its number, and its text as it is sent.
#[derive(Clone, Debug)]
pub struct Page {
    pub page_number: u32,
    pub text: String,
}

impl Page {
    /// The text of the page, as it is displayed.
    pub fn to_string(&self) -> (r: String)
        ensures
            r@ == self.text@,
    {
        self.text.clone()
    }
}

/// A titled, authored section with its pages in reading order.
#[derive(Clone, Debug)]
pub struct Section {
    pub title: String,
    pub author: String,
    pub directory: String,
    pub vars: HashMap<String, String>,
    pub pages: Vec<Page>,
}

/// Pages are in reading order when their numbers never decrease.
pub open spec fn pages_ordered(pages: Seq<Page>) -> bool {
    forall|i: int, j: int| 0 <= i <= j < pages.len() ==> pages[i].page_number <= pages[j].page_number
}

impl Section {
    /// The pages of the section, in order.
    pub fn all_pages(&self) -> (r: Vec<&Page>)
        ensures
            r@.len() == self.pages@.len(),
            forall|i: int| 0 <= i < r@.len() ==> *r@[i] == self.pages@[i],
    {
        let mut r: Vec<&Page> = Vec::new();
        let mut i: usize = 0;
        while i < self.pages.len()
            invariant
                i <= self.pages@.len(),
                r@.len() == i,
                forall|k: int| 0 <= k < i ==> *r@[k] == self.pages@[k],
            decreases self.pages@.len() - i,
        {
            r.push(&self.pages[i]);
            i = i + 1;
        }
        r
    }

    /// The page at position `index`, if there is one.
    pub fn get_page(&self, index: usize) -> (r: Option<&Page>)
        ensures
            r is Some <==> index < self.pages@.len(),
            r is Some ==> *r->0 == self.pages@[index as int],
    {
        if index < self.pages.len() {
            Some(&self.pages[index])
        } else {
            None
        }
    }
}

/// The whole content tree. `cover_text` and `front_text` are the rendered
/// cover and front pages; `cover` and `front` name their source files.
#[derive(Clone, Debug)]
pub struct Magazine {
    pub title: String,
    pub cover: String,
    pub front: String,
    pub sections: Vec<Section>,
    pub vars: HashMap<String, String>,
    pub cover_text: String,
    pub front_text: String,
}

impl Magazine {
    /// The sections of the magazine, in order.
    pub fn all_sections(&self) -> (r: Vec<&Section>)
        ensures
            r@.len() == self.sections@.len(),
            forall|i: int| 0 <= i < r@.len() ==> *r@[i] == self.sections@[i],
    {
        let mut r: Vec<&Section> = Vec::new();
        let mut i: usize = 0;
        while i < self.sections.len()
            invariant
                i <= self.sections@.len(),
                r@.len() == i,
                forall|k: int| 0 <= k < i ==> *r@[k] == self.sections@[k],
            decreases self.sections@.len() - i,
        {
            r.push(&self.sections[i]);
            i = i + 1;
        }
        r
    }

    /// The section at position `index`, if there is one.
    pub fn get_section(&self, index: usize) -> (r: Option<&Section>)
        ensures
            r is Some <==> index < self.sections@.len(),
            r is Some ==> *r->0 == self.sections@[index as int],
    {
        if index < self.sections.len() {
            Some(&self.sections[index])
        } else {
            None
        }
    }
}

/// Whether a page carries the number `k`.
pub open spec fn numbered(k: u32) -> spec_fn(Page) -> bool {
    |p: Page| p.page_number == k
}

/// The pages of `pages` that carry the number `k`, in their order there.
pub open spec fn pages_numbered(pages: Seq<Page>, k: u32) -> Seq<Page> {
    pages.filter(numbered(k))
}

/// Puts `pages` in reading order by page number, keeping the same pages;
/// pages with equal numbers keep their relative order.
pub fn sort_pages(pages: &mut Vec<Page>)
    ensures
        pages_ordered(final(pages)@),
        final(pages)@.to_multiset() == old(pages)@.to_multiset(),
        forall|k: u32| #[trigger]
            pages_numbered(final(pages)@, k) == pages_numbered(old(pages)@, k),
{
    broadcast use vstd::seq_lib::group_to_multiset_ensures;

    let ghost initial = pages@;
    let ghost mut taken: int = 0;
    let mut sorted: Vec<Page> = Vec::new();
    assert(initial.subrange(0, 0) =~= Seq::<Page>::empty());
    assert(initial.subrange(0, initial.len() as int) =~= initial);
    while pages.len() > 0
        invariant
            0 <= taken <= initial.len(),
            pages@ == initial.subrange(taken, initial.len() as int),
            pages_ordered(sorted@),
            sorted@.to_multiset() == initial.subrange(0, taken).to_multiset(),
            forall|k: u32| #[trigger]
                pages_numbered(sorted@, k) == pages_numbered(initial.subrange(0, taken), k),
        decreases pages@.len(),
    {
        let page = pages.remove(0);
        let mut j: usize = 0;
        while j < sorted.len() && sorted[j].page_number <= page.page_number
            invariant
                j <= sorted@.len(),
                forall|k: int| 0 <= k < j ==> sorted@[k].page_number <= page.page_number,
            decreases sorted@.len() - j,
        {
            j = j + 1;
        }
        let ghost prev = sorted@;
        let ghost done = initial.subrange(0, taken);
        assert(forall|k: int| j <= k < prev.len() ==> prev[k].page_number > page.page_number) by {
            assert forall|k: int| j <= k < prev.len() implies prev[k].page_number
                > page.page_number by {
                assert(prev[j as int].page_number <= prev[k].page_number);
            }
        }
        sorted.insert(j, page);
        proof {
            assert(sorted@ == prev.insert(j as int, page));
            let front = prev.subrange(0, j as int);
            let back = prev.subrange(j as int, prev.len() as int);
            assert(prev =~= front + back);
            assert(sorted@ =~= front.push(page) + back);
            assert(initial.subrange(0, taken + 1) =~= done.push(page));
            vstd::seq_lib::to_multiset_insert(prev, j as int, page);
            vstd::seq_lib::to_multiset_build(done, page);
            assert forall|k: u32| #[trigger]
                pages_numbered(sorted@, k) == pages_numbered(done.push(page), k) by {
                let pred = numbered(k);
                assert(pages_numbered(prev, k) == pages_numbered(done, k));
                assert(pred(page) == (page.page_number == k));
                Seq::filter_distributes_over_add(front.push(page), back, pred);
                Seq::filter_distributes_over_add(front, back, pred);
                front.lemma_filter_push(page, pred);
                done.lemma_filter_push(page, pred);
                if k == page.page_number {
                    assert(back.all(|x: Page| !pred(x))) by {
                        assert forall|i: int| 0 <= i < back.len() implies !pred(back[i]) by {
                            assert(back[i] == prev[j + i]);
                        }
                    }
                    back.lemma_all_neg_filter_empty(pred);
                    assert(back.filter(pred) =~= Seq::<Page>::empty());
                    assert(pages_numbered(sorted@, k) =~= front.filter(pred).push(page));
                    assert(pages_numbered(prev, k) =~= front.filter(pred));
                    assert(pages_numbered(done.push(page), k) == done.filter(pred).push(page));
                } else {
                    assert(pages_numbered(sorted@, k) =~= front.filter(pred) + back.filter(pred));
                    assert(pages_numbered(done.push(page), k) == done.filter(pred));
                }
            }
            assert forall|a: int, b: int| 0 <= a <= b < sorted@.len() implies sorted@[a].page_number
                <= sorted@[b].page_number by {
                if a < j && b > j {
                    assert(sorted@[a] == prev[a]);
                    assert(sorted@[b] == prev[b - 1]);
                } else if a < j && b == j {
                    assert(sorted@[a] == prev[a]);
                } else if a == j && b > j {
                    assert(sorted@[b] == prev[b - 1]);
                } else if a > j {
                    assert(sorted@[a] == prev[a - 1]);
                    assert(sorted@[b] == prev[b - 1]);
                } else if b < j {
                    assert(sorted@[a] == prev[a]);
                    assert(sorted@[b] == prev[b]);
                }
            }
            taken = taken + 1;
        }
    }
    *pages = sorted;
}

} // verus!
