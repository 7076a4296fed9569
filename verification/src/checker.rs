//! Comparing the records that the files of one project gave.

use vstd::prelude::*;
use crate::config::{
    detected_sources, sources_view, ConfigSource, DetectedReads, ErrorView, MetadataError,
};
use crate::loader::{batch, loaded_view, LoadedView};
use crate::metadata::{
    copy_dependencies, copy_optional_map, optional_view, same_dependencies, same_optional_dependencies,
    same_optional_map, same_optional_table, Dependencies, DependenciesView, MetadataView,
    ProjectMetadata,
};
use crate::ordered_map::OrderedMap;
use crate::text::{
    copy_optional_text, copy_optional_texts, optional_texts_view, same_optional_text,
    same_optional_texts, text_view,
};

verus! {

/// A field on which two records differ, with the value of the first record
/// and that of the other.
#[derive(Debug)]
pub enum Difference {
    Name(String, String),
    Version(String, String),
    Description(Option<String>, Option<String>),
    Authors(Option<Vec<String>>, Option<Vec<String>>),
    License(Option<String>, Option<String>),
    Keywords(Option<Vec<String>>, Option<Vec<String>>),
    Dependencies(Option<Dependencies>, Option<Dependencies>),
    Scripts(Option<OrderedMap<String>>, Option<OrderedMap<String>>),
}

/// The mathematical value of a `Difference`.
pub enum DifferenceView {
    Name(Seq<char>, Seq<char>),
    Version(Seq<char>, Seq<char>),
    Description(Option<Seq<char>>, Option<Seq<char>>),
    Authors(Option<Seq<Seq<char>>>, Option<Seq<Seq<char>>>),
    License(Option<Seq<char>>, Option<Seq<char>>),
    Keywords(Option<Seq<Seq<char>>>, Option<Seq<Seq<char>>>),
    Dependencies(Option<DependenciesView>, Option<DependenciesView>),
    Scripts(Option<Seq<(Seq<char>, Seq<char>)>>, Option<Seq<(Seq<char>, Seq<char>)>>),
}

impl View for Difference {
    type V = DifferenceView;

    open spec fn view(&self) -> DifferenceView {
        match self {
            Difference::Name(a, b) => DifferenceView::Name(a@, b@),
            Difference::Version(a, b) => DifferenceView::Version(a@, b@),
            Difference::Description(a, b) => DifferenceView::Description(
                text_view(*a),
                text_view(*b),
            ),
            Difference::Authors(a, b) => DifferenceView::Authors(
                optional_texts_view(*a),
                optional_texts_view(*b),
            ),
            Difference::License(a, b) => DifferenceView::License(text_view(*a), text_view(*b)),
            Difference::Keywords(a, b) => DifferenceView::Keywords(
                optional_texts_view(*a),
                optional_texts_view(*b),
            ),
            Difference::Dependencies(a, b) => DifferenceView::Dependencies(
                optional_view(*a),
                optional_view(*b),
            ),
            Difference::Scripts(a, b) => DifferenceView::Scripts(
                optional_view(*a),
                optional_view(*b),
            ),
        }
    }
}

impl DifferenceView {
    /// The name of the field, as a report writes it.
    pub open spec fn label(self) -> Seq<char> {
        match self {
            DifferenceView::Name(_, _) => "Name"@,
            DifferenceView::Version(_, _) => "Version"@,
            DifferenceView::Description(_, _) => "Description"@,
            DifferenceView::Authors(_, _) => "Authors"@,
            DifferenceView::License(_, _) => "License"@,
            DifferenceView::Keywords(_, _) => "Keywords"@,
            DifferenceView::Dependencies(_, _) => "Dependencies"@,
            DifferenceView::Scripts(_, _) => "Scripts"@,
        }
    }
}

impl Difference {
    /// The name of the field, as a report writes it.
    pub fn label(&self) -> (label: &'static str)
        ensures
            label@ == self@.label(),
    {
        match self {
            Difference::Name(_, _) => "Name",
            Difference::Version(_, _) => "Version",
            Difference::Description(_, _) => "Description",
            Difference::Authors(_, _) => "Authors",
            Difference::License(_, _) => "License",
            Difference::Keywords(_, _) => "Keywords",
            Difference::Dependencies(_, _) => "Dependencies",
            Difference::Scripts(_, _) => "Scripts",
        }
    }
}

/// The views of a list of differences.
pub open spec fn differences_view(differences: Seq<Difference>) -> Seq<DifferenceView> {
    Seq::new(differences.len(), |i: int| differences[i]@)
}

/// One difference where a condition holds, none where it does not.
pub open spec fn when(differs: bool, difference: DifferenceView) -> Seq<DifferenceView> {
    if differs {
        seq![difference]
    } else {
        Seq::empty()
    }
}

/// The fields on which two records differ, each with both values, in the
/// order name, version, description, authors, license, keywords,
/// dependencies, scripts. Dependencies and scripts differ where they do not
/// give the same names the same values; their order plays no part.
pub open spec fn differences(first: MetadataView, other: MetadataView) -> Seq<DifferenceView> {
    when(first.name != other.name, DifferenceView::Name(first.name, other.name)) + when(
        first.version != other.version,
        DifferenceView::Version(first.version, other.version),
    ) + when(
        first.description != other.description,
        DifferenceView::Description(first.description, other.description),
    ) + when(first.authors != other.authors, DifferenceView::Authors(first.authors, other.authors))
        + when(first.license != other.license, DifferenceView::License(first.license, other.license))
        + when(
        first.keywords != other.keywords,
        DifferenceView::Keywords(first.keywords, other.keywords),
    ) + when(
        !same_optional_dependencies(first.dependencies, other.dependencies),
        DifferenceView::Dependencies(first.dependencies, other.dependencies),
    ) + when(
        !same_optional_table(first.scripts, other.scripts),
        DifferenceView::Scripts(first.scripts, other.scripts),
    )
}

/// A difference between the first record of a project and another one, with
/// the paths of the two files.
#[derive(Debug)]
pub struct Discrepancy {
    pub first_path: String,
    pub other_path: String,
    pub difference: Difference,
}

/// The mathematical value of a `Discrepancy`.
pub struct DiscrepancyView {
    pub first_path: Seq<char>,
    pub other_path: Seq<char>,
    pub difference: DifferenceView,
}

impl View for Discrepancy {
    type V = DiscrepancyView;

    open spec fn view(&self) -> DiscrepancyView {
        DiscrepancyView {
            first_path: self.first_path@,
            other_path: self.other_path@,
            difference: self.difference@,
        }
    }
}

/// The views of a list of discrepancies.
pub open spec fn discrepancies_view(discrepancies: Seq<Discrepancy>) -> Seq<DiscrepancyView> {
    Seq::new(discrepancies.len(), |i: int| discrepancies[i]@)
}

/// Differences, each with the paths of the two files compared.
pub open spec fn attributed(
    first_path: Seq<char>,
    other_path: Seq<char>,
    differences: Seq<DifferenceView>,
) -> Seq<DiscrepancyView> {
    Seq::new(
        differences.len(),
        |i: int| DiscrepancyView { first_path, other_path, difference: differences[i] },
    )
}

/// What comparing the first record with one other record reports.
pub open spec fn compared(first: LoadedView, other: LoadedView) -> Seq<DiscrepancyView> {
    attributed(first.path, other.path, differences(first.metadata, other.metadata))
}

/// What comparing the first record with each of the next `count - 1` records
/// reports, record after record.
pub open spec fn discrepancies_among(loaded: Seq<LoadedView>, count: nat) -> Seq<DiscrepancyView>
    decreases count,
{
    if count <= 1 {
        Seq::empty()
    } else {
        discrepancies_among(loaded, (count - 1) as nat) + compared(loaded[0], loaded[count - 1])
    }
}

/// What comparing the first record with every other record reports.
pub open spec fn discrepancies(loaded: Seq<LoadedView>) -> Seq<DiscrepancyView> {
    discrepancies_among(loaded, loaded.len())
}

/// One difference as a list of one, none as the empty list.
pub open spec fn optional_difference(difference: Option<Difference>) -> Seq<DifferenceView> {
    match difference {
        Some(d) => seq![d@],
        None => Seq::empty(),
    }
}

/// Appends a difference, where there is one.
fn note(found: &mut Vec<Difference>, difference: Option<Difference>)
    ensures
        differences_view(final(found)@) == differences_view(old(found)@) + optional_difference(
            difference,
        ),
{
    match difference {
        Some(d) => {
            found.push(d);
            assert(differences_view(found@) =~= differences_view(old(found)@) + seq![d@]);
        },
        None => {
            assert(differences_view(found@) =~= differences_view(old(found)@)
                + Seq::<DifferenceView>::empty());
        },
    }
}

/// The difference in `name`, where there is one.
fn name_difference(first: &ProjectMetadata, other: &ProjectMetadata) -> (difference: Option<
    Difference,
>)
    ensures
        optional_difference(difference) == when(
            first@.name != other@.name,
            DifferenceView::Name(first@.name, other@.name),
        ),
{
    if first.name != other.name {
        Some(Difference::Name(first.name.clone(), other.name.clone()))
    } else {
        None
    }
}

/// The difference in `version`, where there is one.
fn version_difference(first: &ProjectMetadata, other: &ProjectMetadata) -> (difference: Option<
    Difference,
>)
    ensures
        optional_difference(difference) == when(
            first@.version != other@.version,
            DifferenceView::Version(first@.version, other@.version),
        ),
{
    if first.version != other.version {
        Some(Difference::Version(first.version.clone(), other.version.clone()))
    } else {
        None
    }
}

/// The difference in `description`, where there is one.
fn description_difference(first: &ProjectMetadata, other: &ProjectMetadata) -> (difference: Option<
    Difference,
>)
    ensures
        optional_difference(difference) == when(
            first@.description != other@.description,
            DifferenceView::Description(first@.description, other@.description),
        ),
{
    if !same_optional_text(&first.description, &other.description) {
        Some(Difference::Description(copy_optional_text(&first.description), copy_optional_text(&other.description)))
    } else {
        None
    }
}

/// The difference in `authors`, where there is one.
fn authors_difference(first: &ProjectMetadata, other: &ProjectMetadata) -> (difference: Option<
    Difference,
>)
    ensures
        optional_difference(difference) == when(
            first@.authors != other@.authors,
            DifferenceView::Authors(first@.authors, other@.authors),
        ),
{
    if !same_optional_texts(&first.authors, &other.authors) {
        Some(Difference::Authors(copy_optional_texts(&first.authors), copy_optional_texts(&other.authors)))
    } else {
        None
    }
}

/// The difference in `license`, where there is one.
fn license_difference(first: &ProjectMetadata, other: &ProjectMetadata) -> (difference: Option<
    Difference,
>)
    ensures
        optional_difference(difference) == when(
            first@.license != other@.license,
            DifferenceView::License(first@.license, other@.license),
        ),
{
    if !same_optional_text(&first.license, &other.license) {
        Some(Difference::License(copy_optional_text(&first.license), copy_optional_text(&other.license)))
    } else {
        None
    }
}

/// The difference in `keywords`, where there is one.
fn keywords_difference(first: &ProjectMetadata, other: &ProjectMetadata) -> (difference: Option<
    Difference,
>)
    ensures
        optional_difference(difference) == when(
            first@.keywords != other@.keywords,
            DifferenceView::Keywords(first@.keywords, other@.keywords),
        ),
{
    if !same_optional_texts(&first.keywords, &other.keywords) {
        Some(Difference::Keywords(copy_optional_texts(&first.keywords), copy_optional_texts(&other.keywords)))
    } else {
        None
    }
}

/// The difference in `dependencies`, where there is one.
fn dependencies_difference(first: &ProjectMetadata, other: &ProjectMetadata) -> (difference: Option<
    Difference,
>)
    ensures
        optional_difference(difference) == when(
            !same_optional_dependencies(first@.dependencies, other@.dependencies),
            DifferenceView::Dependencies(first@.dependencies, other@.dependencies),
        ),
{
    if !same_dependencies(&first.dependencies, &other.dependencies) {
        Some(
            Difference::Dependencies(
                copy_dependencies(&first.dependencies),
                copy_dependencies(&other.dependencies),
            ),
        )
    } else {
        None
    }
}

/// The difference in `scripts`, where there is one.
fn scripts_difference(first: &ProjectMetadata, other: &ProjectMetadata) -> (difference: Option<
    Difference,
>)
    ensures
        optional_difference(difference) == when(
            !same_optional_table(first@.scripts, other@.scripts),
            DifferenceView::Scripts(first@.scripts, other@.scripts),
        ),
{
    if !same_optional_map(&first.scripts, &other.scripts) {
        Some(
            Difference::Scripts(
                copy_optional_map(&first.scripts),
                copy_optional_map(&other.scripts),
            ),
        )
    } else {
        None
    }
}

impl ProjectMetadata {
    /// The fields on which this record and another differ, each with both
    /// values, in the order name, version, description, authors, license,
    /// keywords, dependencies, scripts. Equal records give none.
    pub fn differences(&self, other: &ProjectMetadata) -> (found: Vec<Difference>)
        ensures
            differences_view(found@) == differences(self@, other@),
    {
        let mut found: Vec<Difference> = Vec::new();
        assert(differences_view(found@) =~= Seq::empty());
        note(&mut found, name_difference(self, other));
        assert(differences_view(found@) =~= when(
            self@.name != other@.name,
            DifferenceView::Name(self@.name, other@.name),
        ));
        note(&mut found, version_difference(self, other));
        note(&mut found, description_difference(self, other));
        note(&mut found, authors_difference(self, other));
        note(&mut found, license_difference(self, other));
        note(&mut found, keywords_difference(self, other));
        note(&mut found, dependencies_difference(self, other));
        note(&mut found, scripts_difference(self, other));
        found
    }
}

/// Appends what comparing the first record with one other record reports.
fn compare_into(
    report: &mut Vec<Discrepancy>,
    first_path: &String,
    first: &ProjectMetadata,
    other_path: &String,
    other: &ProjectMetadata,
)
    ensures
        discrepancies_view(final(report)@) == discrepancies_view(old(report)@) + attributed(
            first_path@,
            other_path@,
            differences(first@, other@),
        ),
{
    let found = first.differences(other);
    let ghost before = discrepancies_view(report@);
    let ghost all = differences_view(found@);
    assert(discrepancies_view(report@) =~= before + attributed(
        first_path@,
        other_path@,
        all.take(0),
    ));
    for difference in it: found
        invariant
            it.seq().len() == all.len(),
            forall|k: int| 0 <= k < all.len() ==> (#[trigger] it.seq()[k])@ == all[k],
            discrepancies_view(report@) == before + attributed(
                first_path@,
                other_path@,
                all.take(it.index() as int),
            ),
    {
        let ghost so_far = discrepancies_view(report@);
        let ghost index = it.index() as int;
        report.push(
            Discrepancy {
                first_path: first_path.clone(),
                other_path: other_path.clone(),
                difference,
            },
        );
        assert(discrepancies_view(report@) =~= so_far.push(
            DiscrepancyView {
                first_path: first_path@,
                other_path: other_path@,
                difference: all[index],
            },
        ));
        assert(discrepancies_view(report@) =~= before + attributed(
            first_path@,
            other_path@,
            all.take(index + 1),
        ));
    }
    assert(all.take(all.len() as int) =~= all);
}

impl ProjectMetadata {
    /// Loads the records of several files and compares the first with each of
    /// the others, in their order. Each difference is reported with the paths
    /// of the two files that the records came from. Differences are no error:
    /// the only errors are those of loading.
    pub fn check_equality(sources: &Vec<ConfigSource>) -> (outcome: Result<
        Vec<Discrepancy>,
        MetadataError,
    >)
        ensures
            outcome matches Ok(report) ==> batch(sources_view(sources@)) matches Ok(loaded)
                && discrepancies_view(report@) == discrepancies(loaded),
            outcome matches Err(error) ==> batch(sources_view(sources@)) == Err::<
                Seq<LoadedView>,
                ErrorView,
            >(error@),
    {
        match ProjectMetadata::load_with_paths(sources) {
            Ok((paths, records)) => {
                let ghost loaded = loaded_view(paths@, records@);
                let mut report: Vec<Discrepancy> = Vec::new();
                let mut k: usize = 1;
                assert(discrepancies_view(report@) =~= discrepancies_among(loaded, 1));
                while k < records.len()
                    invariant
                        1 <= k <= records@.len(),
                        paths@.len() == records@.len(),
                        loaded == loaded_view(paths@, records@),
                        discrepancies_view(report@) == discrepancies_among(loaded, k as nat),
                    decreases records@.len() - k,
                {
                    compare_into(&mut report, &paths[0], &records[0], &paths[k], &records[k]);
                    k += 1;
                }
                Ok(report)
            },
            Err(error) => Err(error),
        }
    }

    /// Compares the records of the files of a project's directory:
    /// `package.json`, `Cargo.toml`, `deno.json` and `pyproject.toml`, as
    /// `check_equality` compares those of any list of files.
    pub fn check_config_files_equality(cwd: &str, reads: DetectedReads) -> (outcome: Result<
        Vec<Discrepancy>,
        MetadataError,
    >)
        ensures
            outcome matches Ok(report) ==> batch(detected_sources(cwd@, reads)) matches Ok(loaded)
                && discrepancies_view(report@) == discrepancies(loaded),
            outcome matches Err(error) ==> batch(detected_sources(cwd@, reads)) == Err::<
                Seq<LoadedView>,
                ErrorView,
            >(error@),
    {
        let sources = reads.into_sources(cwd);
        ProjectMetadata::check_equality(&sources)
    }
}

} // verus!
