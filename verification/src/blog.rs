//! Blog posts and projects as the service lists them, and the paging of blog
//! posts: three to a page, newest first, pages numbered from one.
use vstd::prelude::*;

use chrono::NaiveDateTime;

verus! {

/// A calendar date and time without a time zone, as the database stores it.
#[verifier::external_type_specification]
#[verifier::external_body]
pub struct ExNaiveDateTime(NaiveDateTime);

/// One blog post.
#[derive(Debug)]
pub struct Blog {
    pub publishedtime: NaiveDateTime,
    pub minread: i32,
    pub headerimage: Option<String>,
    pub title_en: String,
    pub permalink: String,
    pub richtextcontent_en: String,
    pub tags_en: String,
}

/// One page of blog posts, with the number of the last page.
#[allow(non_snake_case)]
#[derive(Debug)]
pub struct Out {
    pub maxPageNum: i32,
    pub posts: Vec<Blog>,
}

/// One project.
#[derive(Debug)]
pub struct Proj {
    pub detailslink: String,
    pub title_en: String,
    pub description_en: String,
    pub thumbnailbase64: Option<String>,
}

/// How many posts a page holds.
pub const BLOGS_PER_PAGE: i64 = 3;

/// How many posts come before page `page` (pages are numbered from one).
pub open spec fn page_offset(page: int) -> int {
    BLOGS_PER_PAGE * (page - 1)
}

/// How many pages `total` posts fill: the least number of pages of three that
/// hold them all.
pub open spec fn page_count(total: int) -> int {
    (total + BLOGS_PER_PAGE - 1) / (BLOGS_PER_PAGE as int)
}

/// The page on which the post at position `i` (from zero, newest first) stands.
pub open spec fn page_of(i: int) -> int {
    i / (BLOGS_PER_PAGE as int) + 1
}

/// How many posts to skip before page `page`.
pub fn blog_page_offset(page: i64) -> (offset: i64)
    requires
        i64::MIN <= page_offset(page as int) <= i64::MAX,
    ensures
        offset == page_offset(page as int),
{
    BLOGS_PER_PAGE * (page - 1)
}

/// The number of the last page for `total` posts (zero when there are none).
pub fn max_page_number(total: i64) -> (n: i32)
    requires
        0 <= total,
        page_count(total as int) <= i32::MAX,
    ensures
        n == page_count(total as int),
{
    let pages = total / BLOGS_PER_PAGE + if total % BLOGS_PER_PAGE == 0 { 0 } else { 1 };
    assert(pages == page_count(total as int));
    pages as i32
}

/// Assembles one page of posts with the number of the last page.
pub fn blog_page(posts: Vec<Blog>, total: i64) -> (out: Out)
    requires
        0 <= total,
        page_count(total as int) <= i32::MAX,
    ensures
        out.maxPageNum == page_count(total as int),
        out.posts@ == posts@,
{
    let n = max_page_number(total);
    Out { maxPageNum: n, posts }
}

/// What a listing could not fetch from the database.
#[derive(Debug, Clone, Copy, PartialEq, Eq, Structural)]
pub enum FetchFailure {
    /// The posts of a page.
    Blogs,
    /// The number of posts.
    BlogCount,
    /// The post with a given permalink.
    Blog,
    /// The projects.
    Projects,
}

/// The message that the client receives, with an internal server error, for
/// a failed fetch.
pub open spec fn failure_text(f: FetchFailure) -> Seq<char> {
    match f {
        FetchFailure::Blogs => "Failed to fetch blogs"@,
        FetchFailure::BlogCount => "Failed to fetch count"@,
        FetchFailure::Blog => "No such blog"@,
        FetchFailure::Projects => "Failed to fetch"@,
    }
}

/// The message for a failed fetch.
pub fn failure_message(f: FetchFailure) -> (m: &'static str)
    ensures
        m@ == failure_text(f),
{
    match f {
        FetchFailure::Blogs => "Failed to fetch blogs",
        FetchFailure::BlogCount => "Failed to fetch count",
        FetchFailure::Blog => "No such blog",
        FetchFailure::Projects => "Failed to fetch",
    }
}

/// Pages one to the last one hold every post exactly once: each post stands
/// on exactly one page, that page is among them, and the last page is not
/// empty.
pub proof fn law_pages_cover_every_post(total: int, i: int)
    requires
        0 <= i < total,
    ensures
        1 <= page_of(i) <= page_count(total),
        page_offset(page_of(i)) <= i < page_offset(page_of(i)) + BLOGS_PER_PAGE,
        forall|p: int|
            #[trigger] page_offset(p) <= i < page_offset(p) + BLOGS_PER_PAGE ==> p == page_of(i),
        page_offset(page_count(total)) < total,
        total <= page_offset(page_count(total) + 1),
{
}

/// Consecutive pages follow each other without gap or overlap.
pub proof fn law_pages_are_contiguous(page: int)
    ensures
        page_offset(page + 1) == page_offset(page) + BLOGS_PER_PAGE,
        page_offset(1) == 0,
{
}

} // verus!
