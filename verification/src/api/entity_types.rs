//! The catalogue of the categories of project entities.

use vstd::prelude::*;
use crate::api::uuid::{identifier, lemma_braces_do_not_matter, lemma_canonical_parses, UUID};
use crate::error::{Error, ErrorView};
use crate::text::{
    ends_with,
    replace_spaces,
    same_text,
    trim_end_matches,
    underscored,
    without_suffix,
};

verus! {

/// The kinds of entity types that the catalogue knows.
#[derive(Debug, Clone, Copy, PartialEq, Eq, Structural, PartialOrd, Ord, Hash)]
pub enum EntityTypes {
    CategoryType(Category),
}

/// The categories of project entities.
#[derive(Debug, Clone, Copy, PartialEq, Eq, Structural, PartialOrd, Ord, Hash)]
pub enum Category {
    /// Duct accessory category type.
    DuctAccessory,
    /// Duct fitting category type.
    DuctFitting,
    /// Electric distribution board category type.
    ElectricDistributionBoard,
    /// Equipment category type.
    Equipment,
    /// Lighting fixture category type.
    LightingFixture,
    /// Mechanical equipment category type.
    MechanicalEquipment,
    /// Pipe accessory category type.
    PipeAccessory,
    /// Pipe fitting category type.
    PipeFitting,
    /// Plumbing fixture category type.
    PlumbingFixture,
    /// Wiring accessory category type.
    WiringAccessory,
}

/// `text` without its leading and trailing white space, as `str::trim` gives it.
pub uninterp spec fn trimmed(text: Seq<char>) -> Seq<char>;

/// `text` in lower case, as `str::to_lowercase` gives it.
pub uninterp spec fn lowercased(text: Seq<char>) -> Seq<char>;

/// Calls `str::trim`, which removes leading and trailing white space as
/// Unicode defines it. The contract only names what comes back.
#[verifier::external_body]
fn trim(text: &str) -> (inner: &str)
    ensures
        inner@ == trimmed(text@),
{
    text.trim()
}

/// Calls `str::to_lowercase`, which maps every character to its lower case as
/// Unicode defines it. The contract only names what comes back.
#[verifier::external_body]
fn to_lowercase(text: &str) -> (lower: String)
    ensures
        lower@ == lowercased(text@),
{
    text.to_lowercase()
}

/// The name under which a category is looked up, made from what a user
/// wrote: trimmed, in lower case, with underscores for spaces, and without
/// any trailing `_category`.
pub open spec fn sanitized(text: Seq<char>) -> Seq<char> {
    without_suffix(underscored(lowercased(trimmed(text))), "_category"@)
}

/// The category with the sanitized name `name`, if there is one.
pub open spec fn category_named(name: Seq<char>) -> Option<Category> {
    if name == "duct_accessory"@ {
        Some(Category::DuctAccessory)
    }     else if name == "duct_fitting"@ {
        Some(Category::DuctFitting)
    }     else if name == "electric_distribution_board"@ {
        Some(Category::ElectricDistributionBoard)
    }     else if name == "equipment"@ {
        Some(Category::Equipment)
    }     else if name == "lighting_fixture"@ {
        Some(Category::LightingFixture)
    }     else if name == "mechanical_equipment"@ {
        Some(Category::MechanicalEquipment)
    }     else if name == "pipe_accessory"@ {
        Some(Category::PipeAccessory)
    }     else if name == "pipe_fitting"@ {
        Some(Category::PipeFitting)
    }     else if name == "plumbing_fixture"@ {
        Some(Category::PlumbingFixture)
    }     else if name == "wiring_accessory"@ {
        Some(Category::WiringAccessory)
    } else {
        None
    }
}

impl EntityTypes {
    /// The entity type as a reader sees it: the kind, and the name of what
    /// it holds in parentheses.
    pub open spec fn display_spec(self) -> Seq<char> {
        match self {
            EntityTypes::CategoryType(category) => "CategoryType("@ + category.name_spec() + ")"@,
        }
    }

    /// Returns the entity type as a reader sees it.
    pub fn to_string(&self) -> (text: String)
        ensures
            text@ == self.display_spec(),
    {
        match self {
            EntityTypes::CategoryType(category) => String::from_str("CategoryType(").concat(
                category.name(),
            ).concat(")"),
        }
    }
}

impl DeepView for Category {
    type V = Category;

    open spec fn deep_view(&self) -> Category {
        *self
    }
}

impl Category {
    /// The identifier of the category.
    pub open spec fn uuid_spec(self) -> UUID {
        match self {
            Category::DuctAccessory => UUID { data1: 0x46c07d12, data2: 0x8f76, data3: 0x4537, data4: 0xa47308d52395baba },
            Category::DuctFitting => UUID { data1: 0x68eff079, data2: 0x2b52, data3: 0x4e05, data4: 0xa51b6875d1cdb9fc },
            Category::ElectricDistributionBoard => UUID { data1: 0xd547f002, data2: 0x4a74, data3: 0x41bf, data4: 0xb1f0ed8f5846098f },
            Category::Equipment => UUID { data1: 0x4cd3bc4c, data2: 0x14da, data3: 0x43ca, data4: 0xbbc5d7679566b8dd },
            Category::LightingFixture => UUID { data1: 0xc59fd4c5, data2: 0x4050, data3: 0x47a0, data4: 0xb11af52c4799470c },
            Category::MechanicalEquipment => UUID { data1: 0xd7e202ce, data2: 0x791c, data3: 0x4123, data4: 0xadbe5f6357bf85e6 },
            Category::PipeAccessory => UUID { data1: 0x17c36f59, data2: 0x54dc, data3: 0x4440, data4: 0x8b78034b0adb8716 },
            Category::PipeFitting => UUID { data1: 0x8b5cf8f2, data2: 0xa391, data3: 0x4701, data4: 0x8cb9d6a6ba5ee46f },
            Category::PlumbingFixture => UUID { data1: 0x10bc8911, data2: 0x5931, data3: 0x471a, data4: 0x9c0e74ad36a7ee8a },
            Category::WiringAccessory => UUID { data1: 0x2c07d135, data2: 0x8343, data3: 0x418d, data4: 0xa1c2ea074d98db31 },
        }
    }

    /// The name of the category as it is written in code.
    pub open spec fn name_spec(self) -> Seq<char> {
        match self {
            Category::DuctAccessory => "DuctAccessory"@,
            Category::DuctFitting => "DuctFitting"@,
            Category::ElectricDistributionBoard => "ElectricDistributionBoard"@,
            Category::Equipment => "Equipment"@,
            Category::LightingFixture => "LightingFixture"@,
            Category::MechanicalEquipment => "MechanicalEquipment"@,
            Category::PipeAccessory => "PipeAccessory"@,
            Category::PipeFitting => "PipeFitting"@,
            Category::PlumbingFixture => "PlumbingFixture"@,
            Category::WiringAccessory => "WiringAccessory"@,
        }
    }

    /// The sanitized name under which the category is looked up.
    pub open spec fn sanitized_name(self) -> Seq<char> {
        match self {
            Category::DuctAccessory => "duct_accessory"@,
            Category::DuctFitting => "duct_fitting"@,
            Category::ElectricDistributionBoard => "electric_distribution_board"@,
            Category::Equipment => "equipment"@,
            Category::LightingFixture => "lighting_fixture"@,
            Category::MechanicalEquipment => "mechanical_equipment"@,
            Category::PipeAccessory => "pipe_accessory"@,
            Category::PipeFitting => "pipe_fitting"@,
            Category::PlumbingFixture => "plumbing_fixture"@,
            Category::WiringAccessory => "wiring_accessory"@,
        }
    }

    /// Every category is found under its own sanitized name, and under no
    /// other name.
    pub proof fn lemma_every_category_is_found(self, name: Seq<char>)
        ensures
            category_named(self.sanitized_name()) == Some(self),
            category_named(name) == Some(self) <==> name == self.sanitized_name(),
    {
        reveal_strlit("duct_accessory");
        reveal_strlit("duct_fitting");
        reveal_strlit("electric_distribution_board");
        reveal_strlit("equipment");
        reveal_strlit("lighting_fixture");
        reveal_strlit("mechanical_equipment");
        reveal_strlit("pipe_accessory");
        reveal_strlit("pipe_fitting");
        reveal_strlit("plumbing_fixture");
        reveal_strlit("wiring_accessory");
        assert("duct_accessory"@.len() == 14 && "duct_accessory"@[0] == 'd');
        assert("duct_fitting"@.len() == 12 && "duct_fitting"@[0] == 'd');
        assert("electric_distribution_board"@.len() == 27);
        assert("equipment"@.len() == 9);
        assert("lighting_fixture"@.len() == 16 && "lighting_fixture"@[0] == 'l');
        assert("mechanical_equipment"@.len() == 20);
        assert("pipe_accessory"@.len() == 14 && "pipe_accessory"@[0] == 'p');
        assert("pipe_fitting"@.len() == 12 && "pipe_fitting"@[0] == 'p');
        assert("plumbing_fixture"@.len() == 16 && "plumbing_fixture"@[0] == 'p');
        assert("wiring_accessory"@.len() == 16 && "wiring_accessory"@[0] == 'w');
    }

    /// No two categories share an identifier or a name.
    pub proof fn lemma_categories_are_distinct(self, other: Category)
        requires
            self != other,
        ensures
            self.uuid_spec() != other.uuid_spec(),
            self.uuid_spec().canonical() != other.uuid_spec().canonical(),
    {
        lemma_canonical_parses(self.uuid_spec());
        lemma_canonical_parses(other.uuid_spec());
    }

    /// The sanitized string of a category is the textual form of its
    /// identifier: it parses back to the identifier, with or without braces
    /// around it.
    pub proof fn lemma_sanitized_string_parses(self)
        ensures
            identifier(self.uuid_spec().canonical()) == Ok::<UUID, ErrorView>(self.uuid_spec()),
            identifier(seq!['{'] + self.uuid_spec().canonical() + seq!['}']) == Ok::<
                UUID,
                ErrorView,
            >(self.uuid_spec()),
    {
        lemma_canonical_parses(self.uuid_spec());
        lemma_braces_do_not_matter(self.uuid_spec().canonical());
    }

    /// Returns the identifier of the category.
    pub fn as_uuid(&self) -> (id: UUID)
        ensures
            id == self.uuid_spec(),
    {
        match self {
            Category::DuctAccessory => UUID { data1: 0x46c07d12, data2: 0x8f76, data3: 0x4537, data4: 0xa47308d52395baba },
            Category::DuctFitting => UUID { data1: 0x68eff079, data2: 0x2b52, data3: 0x4e05, data4: 0xa51b6875d1cdb9fc },
            Category::ElectricDistributionBoard => UUID { data1: 0xd547f002, data2: 0x4a74, data3: 0x41bf, data4: 0xb1f0ed8f5846098f },
            Category::Equipment => UUID { data1: 0x4cd3bc4c, data2: 0x14da, data3: 0x43ca, data4: 0xbbc5d7679566b8dd },
            Category::LightingFixture => UUID { data1: 0xc59fd4c5, data2: 0x4050, data3: 0x47a0, data4: 0xb11af52c4799470c },
            Category::MechanicalEquipment => UUID { data1: 0xd7e202ce, data2: 0x791c, data3: 0x4123, data4: 0xadbe5f6357bf85e6 },
            Category::PipeAccessory => UUID { data1: 0x17c36f59, data2: 0x54dc, data3: 0x4440, data4: 0x8b78034b0adb8716 },
            Category::PipeFitting => UUID { data1: 0x8b5cf8f2, data2: 0xa391, data3: 0x4701, data4: 0x8cb9d6a6ba5ee46f },
            Category::PlumbingFixture => UUID { data1: 0x10bc8911, data2: 0x5931, data3: 0x471a, data4: 0x9c0e74ad36a7ee8a },
            Category::WiringAccessory => UUID { data1: 0x2c07d135, data2: 0x8343, data3: 0x418d, data4: 0xa1c2ea074d98db31 },
        }
    }

    /// Returns the identifier of the category in its canonical textual form:
    /// without braces, digits in upper case.
    pub fn to_sanitized_string(&self) -> (text: String)
        ensures
            text@ == self.uuid_spec().canonical(),
    {
        self.as_uuid().to_string()
    }

    /// Returns the name of the category as it is written in code.
    pub fn name(&self) -> (name: &'static str)
        ensures
            name@ == self.name_spec(),
    {
        match self {
            Category::DuctAccessory => "DuctAccessory",
            Category::DuctFitting => "DuctFitting",
            Category::ElectricDistributionBoard => "ElectricDistributionBoard",
            Category::Equipment => "Equipment",
            Category::LightingFixture => "LightingFixture",
            Category::MechanicalEquipment => "MechanicalEquipment",
            Category::PipeAccessory => "PipeAccessory",
            Category::PipeFitting => "PipeFitting",
            Category::PlumbingFixture => "PlumbingFixture",
            Category::WiringAccessory => "WiringAccessory",
        }
    }

    /// The category as a reader sees it: its name, and the canonical text of
    /// its identifier in quotes, braces and parentheses.
    pub open spec fn display_spec(self) -> Seq<char> {
        self.name_spec() + " ({\""@ + self.uuid_spec().canonical() + "\"})"@
    }

    /// Returns the category as a reader sees it.
    pub fn to_string(&self) -> (text: String)
        ensures
            text@ == self.display_spec(),
    {
        let id = self.to_sanitized_string();
        String::from_str(self.name()).concat(" ({\"").concat(id.as_str()).concat("\"})")
    }

    /// Looks a category up by its sanitized name.
    pub fn from_name(name: &str) -> (category: Option<Category>)
        ensures
            category == category_named(name@),
    {
        if same_text(name, "duct_accessory") {
            Some(Category::DuctAccessory)
        }         else if same_text(name, "duct_fitting") {
            Some(Category::DuctFitting)
        }         else if same_text(name, "electric_distribution_board") {
            Some(Category::ElectricDistributionBoard)
        }         else if same_text(name, "equipment") {
            Some(Category::Equipment)
        }         else if same_text(name, "lighting_fixture") {
            Some(Category::LightingFixture)
        }         else if same_text(name, "mechanical_equipment") {
            Some(Category::MechanicalEquipment)
        }         else if same_text(name, "pipe_accessory") {
            Some(Category::PipeAccessory)
        }         else if same_text(name, "pipe_fitting") {
            Some(Category::PipeFitting)
        }         else if same_text(name, "plumbing_fixture") {
            Some(Category::PlumbingFixture)
        }         else if same_text(name, "wiring_accessory") {
            Some(Category::WiringAccessory)
        } else {
            None
        }
    }

    /// Parses a category from what a user wrote, such as `Pipe Fitting` or
    /// `equipment_category`.
    pub fn from_str(text: &str) -> (result: Result<Category, Error>)
        ensures
            match result {
                Ok(category) => category_named(sanitized(text@)) == Some(category),
                Err(e) => category_named(sanitized(text@)).is_none() && e@
                    == ErrorView::ParseError(text@),
            },
    {
        let lower = to_lowercase(trim(text));
        let replaced = replace_spaces(lower.as_str());
        let name = trim_end_matches(replaced.as_str(), "_category");
        match Self::from_name(name) {
            Some(category) => Ok(category),
            None => Err(Error::ParseError(text.to_owned())),
        }
    }
}

} // verus!
