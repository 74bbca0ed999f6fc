use vstd::prelude::*;

verus! {

#[verifier::external_type_specification]
#[verifier::external_body]
pub struct ExHtml(scraper::Html);

/// One step of an element's address: the `index`-th element (from 0, in
/// document order) that matches the CSS selector `css` under the element
/// the steps before it lead to, or under the root for the first step.
pub struct Step {
    pub css: String,
    pub index: usize,
}

pub open spec fn address(at: Seq<Step>) -> Seq<(Seq<char>, nat)> {
    at.map_values(|s: Step| (s.css@, s.index as nat))
}

/// A parsed HTML document, with the text it was parsed from and the CSS
/// selector of the subtrees that were taken out of it.
pub struct Page {
    text: String,
    strip: String,
    doc: scraper::Html,
}

impl Page {
    /// The text the page was parsed from.
    pub closed spec fn text(&self) -> Seq<char> {
        self.text@
    }

    /// The selector of the subtrees taken out after parsing.
    pub closed spec fn strip(&self) -> Seq<char> {
        self.strip@
    }
}

/// In the document of `html` without the subtrees matching `strip` (none where
/// `strip` is not a valid selector, the empty one included): how many
/// elements under the element at `at` match `css`; `None` where the document
/// has no root element left, `at` leads to no element, or a selector is invalid.
pub uninterp spec fn count_of(
    html: Seq<char>,
    strip: Seq<char>,
    at: Seq<(Seq<char>, nat)>,
    css: Seq<char>,
) -> Option<nat>;

/// In the same document: the value of attribute `name` of the element at
/// `at`; `None` where there is no such element (no root element left
/// included) or attribute.
pub uninterp spec fn attr_of(
    html: Seq<char>,
    strip: Seq<char>,
    at: Seq<(Seq<char>, nat)>,
    name: Seq<char>,
) -> Option<Seq<char>>;

/// In the same document: the first text node under the element at `at`;
/// `None` where there is no such element (no root element left included) or
/// text.
pub uninterp spec fn first_text_of(html: Seq<char>, strip: Seq<char>, at: Seq<(Seq<char>, nat)>) -> Option<
    Seq<char>,
>;

/// In the same document: all text under the element at `at`, joined in
/// document order; `None` where there is no such element (no root element
/// left included).
pub uninterp spec fn all_text_of(html: Seq<char>, strip: Seq<char>, at: Seq<(Seq<char>, nat)>) -> Option<
    Seq<char>,
>;

pub open spec fn opt_nat(o: Option<usize>) -> Option<nat> {
    match o {
        Some(n) => Some(n as nat),
        None => None,
    }
}

pub open spec fn opt_chars(o: Option<String>) -> Option<Seq<char>> {
    match o {
        Some(s) => Some(s@),
        None => None,
    }
}

/// Relies on `scraper::Html::parse_document`, `scraper::Html::select` and
/// `ego_tree::NodeMut::detach`: parses `html`, then takes out every subtree
/// whose root matches `strip` (nothing where `strip` is not a valid selector,
/// as the empty one is not).
#[verifier::external_body]
pub(crate) fn load_page(html: &str, strip: &str) -> (r: Page)
    ensures
        r.text() == html@,
        r.strip() == strip@,
{
    let mut doc = scraper::Html::parse_document(html);
    if let Ok(sel) = scraper::Selector::parse(strip) {
        let ids: Vec<_> = doc.select(&sel).map(|e| e.id()).collect();
        for id in ids {
            if let Some(mut node) = doc.tree.get_mut(id) {
                node.detach();
            }
        }
    }
    Page { text: html.to_owned(), strip: strip.to_owned(), doc }
}

/// Relies on `scraper::ElementRef::wrap` on the children of the tree's root
/// (the document's root element, `None` where there is none left),
/// `scraper::Selector::parse` and `scraper::ElementRef::select`: the number of
/// elements under the element at `at` that match `css`.
#[verifier::external_body]
pub(crate) fn count(page: &Page, at: &Vec<Step>, css: &str) -> (r: Option<usize>)
    ensures
        opt_nat(r) == count_of(page.text(), page.strip(), address(at@), css@),
{
    let mut el = page.doc.tree.root().children().find_map(scraper::ElementRef::wrap)?;
    for s in at.iter() {
        el = el.select(&scraper::Selector::parse(s.css.as_str()).ok()?).nth(s.index)?;
    }
    Some(el.select(&scraper::Selector::parse(css).ok()?).count())
}

/// Relies on `scraper::ElementRef::attr`, on the element reached as `count`
/// reaches it: the value of attribute `name` there.
#[verifier::external_body]
pub(crate) fn attr(page: &Page, at: &Vec<Step>, name: &str) -> (r: Option<String>)
    ensures
        opt_chars(r) == attr_of(page.text(), page.strip(), address(at@), name@),
{
    let mut el = page.doc.tree.root().children().find_map(scraper::ElementRef::wrap)?;
    for s in at.iter() {
        el = el.select(&scraper::Selector::parse(s.css.as_str()).ok()?).nth(s.index)?;
    }
    el.attr(name).map(|v| v.to_owned())
}

/// Relies on `scraper::ElementRef::text`, on the element reached as `count`
/// reaches it: its first text node.
#[verifier::external_body]
pub(crate) fn first_text(page: &Page, at: &Vec<Step>) -> (r: Option<String>)
    ensures
        opt_chars(r) == first_text_of(page.text(), page.strip(), address(at@)),
{
    let mut el = page.doc.tree.root().children().find_map(scraper::ElementRef::wrap)?;
    for s in at.iter() {
        el = el.select(&scraper::Selector::parse(s.css.as_str()).ok()?).nth(s.index)?;
    }
    el.text().next().map(|t| t.to_owned())
}

/// Relies on `scraper::ElementRef::text`, on the element reached as `count`
/// reaches it: all its text, joined.
#[verifier::external_body]
pub(crate) fn all_text(page: &Page, at: &Vec<Step>) -> (r: Option<String>)
    ensures
        opt_chars(r) == all_text_of(page.text(), page.strip(), address(at@)),
{
    let mut el = page.doc.tree.root().children().find_map(scraper::ElementRef::wrap)?;
    for s in at.iter() {
        el = el.select(&scraper::Selector::parse(s.css.as_str()).ok()?).nth(s.index)?;
    }
    Some(el.text().collect())
}

/// The address `at` followed by the step (`css`, `index`).
pub fn child(at: &Vec<Step>, css: &str, index: usize) -> (r: Vec<Step>)
    ensures
        address(r@) == address(at@).push((css@, index as nat)),
{
    let mut r: Vec<Step> = Vec::new();
    let mut k: usize = 0;
    while k < at.len()
        invariant
            k <= at.len(),
            address(r@) == address(at@).take(k as int),
        decreases at.len() - k,
    {
        let ghost before = r@;
        let st = Step { css: at[k].css.clone(), index: at[k].index };
        assert(st.css@ == at@[k as int].css@);
        r.push(st);
        assert(r@ == before.push(st));
        assert(address(r@) =~= address(before).push((st.css@, st.index as nat)));
        assert(address(r@) =~= address(at@).take(k + 1));
        k = k + 1;
    }
    let ghost before = r@;
    let last = Step { css: css.to_string(), index };
    r.push(last);
    assert(address(r@) =~= address(before).push((last.css@, last.index as nat)));
    assert(address(at@).take(k as int) =~= address(at@));
    assert(address(r@) =~= address(at@).push((css@, index as nat)));
    r
}

} // verus!
