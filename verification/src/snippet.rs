//! The snippet record as the translation engine sees it: an identifier,
//! a title, the body text, a description, and a set of tags. The tags
//! decide how a snippet is handled: `universal` bodies are translated per
//! target language, `plain` bodies are inserted as plain text.

use vstd::prelude::*;

use crate::text::str_eq;

verus! {

/// One stored snippet.
#[derive(Debug, Clone)]
pub struct Snippet {
    pub id: i32,
    pub title: String,
    pub content: String,
    pub description: String,
    pub tags: Vec<String>,
}

impl Snippet {
    /// Whether one of the tags reads `t`.
    pub open spec fn has_tag(self, t: Seq<char>) -> bool {
        exists|i: int| 0 <= i < self.tags@.len() && #[trigger] self.tags@[i]@ == t
    }

    pub fn new(
        id: i32,
        title: String,
        content: String,
        description: String,
        tags: Vec<String>,
    ) -> (r: Self)
        ensures
            r.id == id,
            r.title == title,
            r.content == content,
            r.description == description,
            r.tags == tags,
    {
        Snippet { id, title, content, description, tags }
    }

    /// The snippet's body text.
    pub fn get_content(&self) -> (r: &str)
        ensures
            r@ == self.content@,
    {
        self.content.as_str()
    }

    fn tags_contain(&self, t: &str) -> (r: bool)
        ensures
            r == self.has_tag(t@),
    {
        let mut i: usize = 0;
        while i < self.tags.len()
            invariant
                i <= self.tags@.len(),
                forall|j: int| 0 <= j < i ==> self.tags@[j]@ != t@,
            decreases self.tags@.len() - i,
        {
            if str_eq(self.tags[i].as_str(), t) {
                return true;
            }
            i = i + 1;
        }
        false
    }

    /// Whether the snippet is tagged as written in the universal dialect,
    /// and so is translated per target language.
    pub fn is_universal(&self) -> (r: bool)
        ensures
            r == self.has_tag("universal"@),
    {
        self.tags_contain("universal")
    }

    /// Whether the snippet is tagged as plain text.
    pub fn is_plain(&self) -> (r: bool)
        ensures
            r == self.has_tag("plain"@),
    {
        self.tags_contain("plain")
    }

    /// Whether the snippet carries `language` as a tag.
    pub fn has_language(&self, language: &str) -> (r: bool)
        ensures
            r == self.has_tag(language@),
    {
        self.tags_contain(language)
    }
}

} // verus!
