use vstd::prelude::*;

verus! {

/// The update payload for one source-data entry, assembled from a download
/// outcome; unset fields are left untouched by the server.
#[derive(Debug, Clone, PartialEq)]
pub struct SourceDataUpdateForm {
    pub title: Option<String>,
    pub description: Option<String>,
    pub tags: Option<Vec<SourceTagForm>>,
    pub books: Option<Vec<SourceBookForm>>,
    pub relations: Option<Vec<i64>>,
    pub status: Option<String>,
    pub links: Option<Vec<String>>,
    pub additional_info: Option<Vec<(String, String)>>,
}

#[derive(Debug, Clone, PartialEq)]
pub struct SourceTagForm {
    pub code: String,
    pub name: Option<String>,
    pub other_name: Option<String>,
    pub tag_type: Option<String>,
}

#[derive(Debug, Clone, PartialEq)]
pub struct SourceBookForm {
    pub code: String,
    pub title: Option<String>,
    pub other_title: Option<String>,
}

} // verus!
