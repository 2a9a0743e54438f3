//! Plain data carried between the core and the rendering layer: the
//! view-model structs the pages and the JSON endpoints exchange, and two
//! small helpers of that layer. The outer transport layer owns any
//! serialisation; here these are bare values.

use vstd::prelude::*;
use vstd::string::StringExecFns;

verus! {

/// A portfolio project as the pages show it.
#[derive(Clone, Debug)]
pub struct Project {
    pub title: String,
    pub description: String,
    pub category: String,
    pub technologies: Vec<String>,
    pub repo_link: String,
    pub pdf_link: String,
    pub image: String,
}

/// A skill entry as the pages show it.
#[derive(Clone, Debug)]
pub struct Skill {
    pub name: String,
    pub percentage: u8,
    pub logo: String,
    pub category: String,
}

/// The service-information answer of the status endpoint.
pub struct Info {
    pub status: String,
    pub app: String,
    pub version: String,
}

/// The query-string filter of the project-listing endpoint.
#[derive(Debug)]
pub struct ProjectFilter {
    pub q: Option<String>,
    pub category: Option<String>,
    pub tech: Option<String>,
    pub limit: Option<usize>,
}

/// The profile fields a user may edit, each optional.
#[derive(Debug, Clone, Default)]
pub struct ProfileDto {
    pub first_name: Option<String>,
    pub last_name: Option<String>,
    pub title: Option<String>,
    pub email: Option<String>,
    pub phone: Option<String>,
    pub address: Option<String>,
    pub city: Option<String>,
    pub country: Option<String>,
    pub website: Option<String>,
    pub photo_url: Option<String>,
}

/// One experience entry of an imported or exported profile.
#[derive(Clone)]
pub struct ExperienceItem {
    pub company: Option<String>,
    pub role: Option<String>,
    pub location: Option<String>,
    pub start: Option<String>,
    pub end: Option<String>,
    pub bullets: Option<Vec<String>>,
}

/// One education entry of an imported or exported profile.
#[derive(Clone)]
pub struct EducationItem {
    pub school: Option<String>,
    pub degree: Option<String>,
    pub start: Option<String>,
    pub end: Option<String>,
    pub details: Option<Vec<String>>,
}

/// One project entry of an imported or exported profile.
#[derive(Clone)]
pub struct ProjectItem {
    pub name: Option<String>,
    pub description: Option<String>,
    pub tech: Option<Vec<String>>,
    pub link: Option<String>,
}

/// The kinds of widget the layout builder can place.
#[derive(Clone, Debug, PartialEq)]
pub enum WidgetKind {
    Text(String),
    ProfileBasic,
    ExperienceTimeline,
    SkillsGrid,
    ProjectsList,
}

/// Data of the home page.
pub struct HomeTpl {
    pub year: i32,
}

/// Data of the project-listing page.
pub struct ProjectsTpl {
    pub year: i32,
    pub name: String,
    pub title: String,
    pub tagline: String,
    pub projects: Vec<Project>,
}

/// Data of the portfolio page.
pub struct PortfolioTpl {
    pub year: i32,
    pub name: String,
    pub title: String,
    pub tagline: String,
}

/// Data of the landing page: headline fields plus the lists it renders.
pub struct IndexTemplate {
    pub year: i32,
    pub name: String,
    pub title: String,
    pub tagline: String,
    pub skills: Vec<Skill>,
    pub projects: Vec<Project>,
}

/// Data of the dashboard shell.
pub struct DashboardTpl {
    pub year: i32,
    pub message: String,
}

/// Data of the inline diagnostic page.
pub struct InlineTpl {
    pub year: i32,
}

/// The fixed placeholder user identifier the CV endpoints still run under.
pub fn uid() -> (r: String)
    ensures
        r@ == "1"@,
{
    String::from_str("1")
}

/// The base URLs the dashboard tries for its own API, in order: same
/// origin first, then the two local development hosts.
pub fn candidate_bases() -> (r: Vec<String>)
    ensures
        r@.len() == 3,
        r@[0]@ == Seq::<char>::empty(),
        r@[1]@ == "http://localhost:8080"@,
        r@[2]@ == "http://127.0.0.1:8080"@,
{
    let mut v: Vec<String> = Vec::new();
    v.push(String::new());
    v.push(String::from_str("http://localhost:8080"));
    v.push(String::from_str("http://127.0.0.1:8080"));
    v
}

} // verus!
