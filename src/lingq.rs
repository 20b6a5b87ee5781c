//! The parts of the lesson catalog's API that the pipeline uses: where its
//! requests go, what they carry, and what is read from its answers.
use vstd::prelude::*;

use crate::config::texts;

verus! {

/// Where the catalog's collections are listed.
pub const COLLECTIONS_API: &'static str = "https://www.lingq.com/api/v2/";

/// Where lessons are imported into the catalog.
pub const LESSON_IMPORT_URL: &'static str = "https://www.lingq.com/api/v3/de/lessons/import/";

/// A course of the catalog, with its lessons.
#[derive(Debug)]
pub struct LingqCourse {
    pub pk: u64,
    pub url: String,
    pub title: String,
    pub lessons: Vec<LingqLesson>,
}

/// A lesson of a course.
#[derive(Debug)]
pub struct LingqLesson {
    pub title: String,
    pub url: String,
}

/// The titles of a sequence of lessons, in order.
pub open spec fn lesson_titles_of(lessons: Seq<LingqLesson>) -> Seq<Seq<char>> {
    lessons.map_values(|lesson: LingqLesson| lesson.title@)
}

impl LingqCourse {
    /// The titles of the course's lessons, in the catalog's order.
    pub fn lesson_titles(&self) -> (r: Vec<String>)
        ensures
            texts(r@) == lesson_titles_of(self.lessons@),
    {
        let mut r: Vec<String> = Vec::new();
        let mut i: usize = 0;
        while i < self.lessons.len()
            invariant
                i <= self.lessons.len(),
                r@.len() == i,
                forall|k: int| 0 <= k < i ==> #[trigger] r@[k]@ == self.lessons@[k].title@,
            decreases self.lessons.len() - i,
        {
            r.push(self.lessons[i].title.clone());
            i = i + 1;
        }
        assert(texts(r@) =~= lesson_titles_of(self.lessons@));
        r
    }
}

/// The character of a decimal digit.
pub open spec fn digit_char(d: nat) -> char {
    if d == 0 { '0' } else if d == 1 { '1' } else if d == 2 { '2' } else if d == 3 { '3' }
    else if d == 4 { '4' } else if d == 5 { '5' } else if d == 6 { '6' } else if d == 7 { '7' }
    else if d == 8 { '8' } else { '9' }
}

/// The decimal digits of `n`, without leading zeros.
pub open spec fn decimal(n: nat) -> Seq<char>
    decreases n,
{
    if n < 10 {
        seq![digit_char(n)]
    } else {
        decimal(n / 10) + seq![digit_char(n % 10)]
    }
}

fn digit_text(d: u64) -> (r: &'static str)
    requires
        d < 10,
    ensures
        r@ == seq![digit_char(d as nat)],
{
    proof {
        reveal_strlit("0");
        reveal_strlit("1");
        reveal_strlit("2");
        reveal_strlit("3");
        reveal_strlit("4");
        reveal_strlit("5");
        reveal_strlit("6");
        reveal_strlit("7");
        reveal_strlit("8");
        reveal_strlit("9");
    }
    if d == 0 { "0" } else if d == 1 { "1" } else if d == 2 { "2" } else if d == 3 { "3" }
    else if d == 4 { "4" } else if d == 5 { "5" } else if d == 6 { "6" } else if d == 7 { "7" }
    else if d == 8 { "8" } else { "9" }
}

fn append_decimal(out: &mut String, n: u64)
    ensures
        final(out)@ == old(out)@ + decimal(n as nat),
    decreases n,
{
    if n >= 10 {
        append_decimal(out, n / 10);
    }
    out.append(digit_text(n % 10));
}

/// The URL at which the catalog lists a course, with its lessons.
pub fn collection_url(language: &str, course_id: u64) -> (r: String)
    ensures
        r@ == COLLECTIONS_API@ + language@ + "/collections/"@ + decimal(course_id as nat) + "/"@,
{
    let mut r = COLLECTIONS_API.to_owned();
    r.append(language);
    r.append("/collections/");
    append_decimal(&mut r, course_id);
    r.append("/");
    r
}

/// The text fields of a lesson import, as pairs of name and value.
pub open spec fn import_fields(course_id: u64, title: Seq<char>, text: Seq<char>) -> Seq<(Seq<char>, Seq<char>)> {
    seq![
        ("title"@, title),
        ("collection"@, decimal(course_id as nat)),
        ("save"@, "true"@),
        ("text"@, text),
    ]
}

/// The text fields of the form that imports a lesson into a course.
pub fn lesson_import_fields(course_id: u64, title: &str, text: &str) -> (r: Vec<(String, String)>)
    ensures
        r@.map_values(|field: (String, String)| (field.0@, field.1@)) == import_fields(
            course_id,
            title@,
            text@,
        ),
{
    let mut collection = String::new();
    append_decimal(&mut collection, course_id);
    let mut r: Vec<(String, String)> = Vec::new();
    r.push(("title".to_owned(), title.to_owned()));
    r.push(("collection".to_owned(), collection));
    r.push(("save".to_owned(), "true".to_owned()));
    r.push(("text".to_owned(), text.to_owned()));
    assert(r@.map_values(|field: (String, String)| (field.0@, field.1@)) =~= import_fields(
        course_id,
        title@,
        text@,
    ));
    r
}

/// The value of the authorization header that carries an API key.
pub fn authorization_value(api_key: &str) -> (r: String)
    ensures
        r@ == "Token "@ + api_key@,
{
    let mut r = "Token ".to_owned();
    r.append(api_key);
    r
}

} // verus!
