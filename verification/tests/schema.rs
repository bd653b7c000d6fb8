use lib_roblox::ClassHierarchyResolver;
use rbx_dom_weak::types::{Enum, Variant, VariantType};
use rbx_reflection::{ClassDescriptor, ClassTag, DataType, PropertyDescriptor, ReflectionDatabase};

fn class(name: &'static str, superclass: Option<&'static str>) -> ClassDescriptor<'static> {
    let mut class = ClassDescriptor::new(name);
    class.superclass = superclass.map(Into::into);
    class
}

fn service(name: &'static str, superclass: Option<&'static str>) -> ClassDescriptor<'static> {
    let mut class = class(name, superclass);
    class.tags.insert(ClassTag::Service);
    class
}

fn declare(
    class: &mut ClassDescriptor<'static>,
    property: &'static str,
    data_type: DataType<'static>,
) {
    class.properties.insert(property.into(), PropertyDescriptor::new(property, data_type));
}

fn default(class: &mut ClassDescriptor<'static>, property: &'static str, value: Variant) {
    class.default_properties.insert(property.into(), value);
}

fn database(classes: Vec<ClassDescriptor<'static>>) -> ReflectionDatabase<'static> {
    let mut db = ReflectionDatabase::new();
    for class in classes {
        db.classes.insert(class.name.clone(), class);
    }
    db
}

/// `Part -> BasePart -> PVInstance -> Instance` and
/// `Workspace -> Model -> Instance`, with `Workspace` tagged as a service.
fn sample() -> ReflectionDatabase<'static> {
    let mut instance = class("Instance", None);
    declare(&mut instance, "Name", DataType::Value(VariantType::String));
    default(&mut instance, "Name", Variant::String("Instance".to_owned()));
    declare(&mut instance, "Archivable", DataType::Value(VariantType::Bool));

    let pv_instance = class("PVInstance", Some("Instance"));

    let mut base_part = class("BasePart", Some("PVInstance"));
    declare(&mut base_part, "Material", DataType::Enum("Material".into()));
    declare(&mut base_part, "Anchored", DataType::Value(VariantType::Bool));
    default(&mut base_part, "Anchored", Variant::Bool(false));
    declare(&mut base_part, "Shape", DataType::Enum("BaseShape".into()));
    default(&mut base_part, "Shape", Variant::Enum(Enum::from_u32(3)));
    declare(&mut base_part, "Finish", DataType::Enum("Finish".into()));
    default(&mut base_part, "Finish", Variant::Float32(1.0));

    let mut part = class("Part", Some("BasePart"));
    default(&mut part, "Material", Variant::Enum(Enum::from_u32(256)));
    default(&mut part, "Anchored", Variant::Bool(true));
    declare(&mut part, "Shape", DataType::Enum("PartType".into()));
    default(&mut part, "Shape", Variant::Enum(Enum::from_u32(1)));
    declare(&mut part, "Name", DataType::Value(VariantType::String));

    let model = class("Model", Some("Instance"));
    let mut workspace = service("Workspace", Some("Model"));
    declare(&mut workspace, "Gravity", DataType::Value(VariantType::Float32));
    default(&mut workspace, "Gravity", Variant::Float32(196.2));

    database(vec![instance, pv_instance, base_part, part, model, workspace])
}

#[test]
fn scenario_part_is_a_base_part() {
    let db = sample();
    let resolver = ClassHierarchyResolver::new(&db);
    assert_eq!(resolver.class_is_a("Part", "BasePart"), Some(true));
    assert_eq!(resolver.class_is_a("Part", "PVInstance"), Some(true));
    assert_eq!(resolver.class_is_a("Workspace", "Model"), Some(true));
}

#[test]
fn scenario_part_is_not_a_model() {
    let db = sample();
    let resolver = ClassHierarchyResolver::new(&db);
    assert_eq!(resolver.class_is_a("Part", "Model"), Some(false));
}

#[test]
fn scenario_class_names_are_case_sensitive() {
    let db = sample();
    let resolver = ClassHierarchyResolver::new(&db);
    assert_eq!(resolver.class_is_a("Part", "part"), Some(false));
    assert_eq!(resolver.class_is_a("Part", "basepart"), Some(false));
    assert_eq!(resolver.class_is_a("Part", "BasePart "), Some(false));
    assert_eq!(resolver.class_is_a("part", "BasePart"), None);
}

#[test]
fn scenario_root_class_needs_no_lookup() {
    let db = sample();
    let resolver = ClassHierarchyResolver::new(&db);
    assert_eq!(resolver.class_is_a("Unknown-Class", "Instance"), Some(true));
    let empty = ReflectionDatabase::new();
    let resolver = ClassHierarchyResolver::new(&empty);
    assert_eq!(resolver.class_is_a("Unknown-Class", "Instance"), Some(true));
}

#[test]
fn scenario_service_answers() {
    let db = sample();
    let resolver = ClassHierarchyResolver::new(&db);
    assert_eq!(resolver.class_is_a_service("Workspace"), Some(true));
    assert_eq!(resolver.class_is_a_service("Model"), Some(false));
    assert_eq!(resolver.class_is_a_service("No Such Class"), None);
}

#[test]
fn scenario_enum_declared_on_ancestor_without_usable_default() {
    let db = sample();
    let resolver = ClassHierarchyResolver::new(&db);
    // `BasePart` declares `Material` and records no default; the default that
    // `Part` records is not read.
    let info = resolver.find_property_info("Part", "Material").unwrap();
    assert_eq!(info.enum_name.as_deref(), Some("Material"));
    assert_eq!(info.enum_default, None);
    assert_eq!(info.value_type, None);
    assert!(info.value_default.is_none());
}

#[test]
fn every_class_is_itself() {
    let db = sample();
    let resolver = ClassHierarchyResolver::new(&db);
    for name in ["Part", "Instance", "Workspace", "Unknown-Class", "", " ", "part"] {
        assert_eq!(resolver.class_is_a(name, name), Some(true));
    }
}

#[test]
fn every_class_is_an_instance() {
    let db = sample();
    let resolver = ClassHierarchyResolver::new(&db);
    for name in ["Part", "BasePart", "PVInstance", "Instance", "Model", "Workspace", "Nothing"] {
        assert_eq!(resolver.class_is_a(name, "Instance"), Some(true));
    }
}

#[test]
fn unrelated_known_classes_are_not_related() {
    let db = sample();
    let resolver = ClassHierarchyResolver::new(&db);
    assert_eq!(resolver.class_is_a("Part", "Workspace"), Some(false));
    assert_eq!(resolver.class_is_a("Workspace", "Part"), Some(false));
    assert_eq!(resolver.class_is_a("Model", "PVInstance"), Some(false));
    // An ancestor is not one of its descendants.
    assert_eq!(resolver.class_is_a("BasePart", "Part"), Some(false));
    assert_eq!(resolver.class_is_a("Instance", "Part"), Some(false));
}

#[test]
fn root_class_is_an_ancestor_even_where_no_link_leads_to_it() {
    let db = database(vec![class("Instance", None), class("Lone", None)]);
    let resolver = ClassHierarchyResolver::new(&db);
    assert_eq!(resolver.class_is_a("Lone", "Instance"), Some(true));
    assert_eq!(resolver.class_is_a("Instance", "Lone"), Some(false));
}

#[test]
fn unknown_class_is_undecided() {
    let db = sample();
    let resolver = ClassHierarchyResolver::new(&db);
    assert_eq!(resolver.class_is_a("Unknown-Class", "Part"), None);
    assert_eq!(resolver.class_is_a("Unknown-Class", "Other-Unknown"), None);
    assert_eq!(resolver.class_is_a("", "Part"), None);
    assert_eq!(resolver.class_is_a("Unknown-Class", ""), None);
}

#[test]
fn unknown_target_is_not_an_ancestor() {
    let db = sample();
    let resolver = ClassHierarchyResolver::new(&db);
    assert_eq!(resolver.class_is_a("Part", "Unknown-Class"), Some(false));
    assert_eq!(resolver.class_is_a("Workspace", ""), Some(false));
    assert_eq!(resolver.class_is_a("Workspace", "."), Some(false));
}

#[test]
fn class_exists_is_a_plain_lookup() {
    let db = sample();
    let resolver = ClassHierarchyResolver::new(&db);
    assert!(resolver.class_exists("Part"));
    assert!(resolver.class_exists("Instance"));
    assert!(!resolver.class_exists("part"));
    assert!(!resolver.class_exists(""));
    assert!(!resolver.class_exists("Material"));
    let empty = ReflectionDatabase::new();
    assert!(!ClassHierarchyResolver::new(&empty).class_exists("Instance"));
}

#[test]
fn service_tag_is_inherited() {
    let mut classes = vec![
        class("Instance", None),
        service("Service", Some("Instance")),
        class("Middle", Some("Service")),
        class("Leaf", Some("Middle")),
        class("Plain", Some("Instance")),
    ];
    classes.push(service("Root", None));
    let db = database(classes);
    let resolver = ClassHierarchyResolver::new(&db);
    assert_eq!(resolver.class_is_a_service("Service"), Some(true));
    assert_eq!(resolver.class_is_a_service("Middle"), Some(true));
    assert_eq!(resolver.class_is_a_service("Leaf"), Some(true));
    assert_eq!(resolver.class_is_a_service("Root"), Some(true));
    assert_eq!(resolver.class_is_a_service("Plain"), Some(false));
    assert_eq!(resolver.class_is_a_service("Instance"), Some(false));
}

#[test]
fn other_tags_do_not_make_a_service() {
    let mut tagged = class("Tagged", None);
    tagged.tags.insert(ClassTag::NotCreatable);
    tagged.tags.insert(ClassTag::Settings);
    let db = database(vec![tagged]);
    assert_eq!(ClassHierarchyResolver::new(&db).class_is_a_service("Tagged"), Some(false));
}

#[test]
fn missing_ancestor_leaves_service_open() {
    let db = database(vec![
        class("Orphan", Some("Ghost")),
        class("Child", Some("Orphan")),
        service("Tagged", Some("Ghost")),
        class("Below", Some("Tagged")),
    ]);
    let resolver = ClassHierarchyResolver::new(&db);
    assert_eq!(resolver.class_is_a_service("Orphan"), None);
    assert_eq!(resolver.class_is_a_service("Child"), None);
    assert_eq!(resolver.class_is_a_service("Ghost"), None);
    // The tag is seen before the walk reaches the missing name.
    assert_eq!(resolver.class_is_a_service("Tagged"), Some(true));
    assert_eq!(resolver.class_is_a_service("Below"), Some(true));
}

#[test]
fn missing_ancestor_leaves_is_a_open() {
    let db = database(vec![
        class("Instance", None),
        class("Orphan", Some("Ghost")),
        class("Child", Some("Orphan")),
    ]);
    let resolver = ClassHierarchyResolver::new(&db);
    assert_eq!(resolver.class_is_a("Child", "Orphan"), Some(true));
    assert_eq!(resolver.class_is_a("Child", "Instance"), Some(true));
    assert_eq!(resolver.class_is_a("Child", "Other"), None);
    assert_eq!(resolver.class_is_a("Orphan", "Other"), None);
    // A name that the schema lacks is looked up before it is compared.
    assert_eq!(resolver.class_is_a("Child", "Ghost"), None);
    assert_eq!(resolver.class_is_a("Orphan", "Ghost"), None);
}

#[test]
fn missing_ancestor_ends_the_property_search() {
    let mut orphan = class("Orphan", Some("Ghost"));
    declare(&mut orphan, "Own", DataType::Value(VariantType::Int32));
    let db = database(vec![orphan, class("Child", Some("Orphan"))]);
    let resolver = ClassHierarchyResolver::new(&db);
    assert!(resolver.find_property_info("Child", "Own").is_some());
    assert!(resolver.find_property_info("Child", "Other").is_none());
    assert!(resolver.find_property_info("Orphan", "Other").is_none());
    assert!(resolver.find_property_info("Ghost", "Own").is_none());
}

#[test]
fn cycle_of_classes_ends_every_walk() {
    let mut b = class("B", Some("C"));
    declare(&mut b, "OnB", DataType::Value(VariantType::Bool));
    let db = database(vec![
        class("A", Some("B")),
        b,
        class("C", Some("A")),
        class("Entry", Some("A")),
        class("Single", Some("Single")),
    ]);
    let resolver = ClassHierarchyResolver::new(&db);
    for start in ["A", "B", "C", "Entry"] {
        for target in ["A", "B", "C"] {
            assert_eq!(resolver.class_is_a(start, target), Some(true));
        }
        assert_eq!(resolver.class_is_a(start, "D"), Some(false));
        assert_eq!(resolver.class_is_a(start, "Single"), Some(false));
        assert_eq!(resolver.class_is_a_service(start), Some(false));
        assert_eq!(
            resolver.find_property_info(start, "OnB").unwrap().value_type,
            Some(VariantType::Bool)
        );
        assert!(resolver.find_property_info(start, "Nowhere").is_none());
    }
    assert_eq!(resolver.class_is_a("A", "Entry"), Some(false));
    assert_eq!(resolver.class_is_a("Single", "A"), Some(false));
    assert_eq!(resolver.class_is_a("Single", "Single"), Some(true));
    assert_eq!(resolver.class_is_a_service("Single"), Some(false));
    assert!(resolver.find_property_info("Single", "OnB").is_none());
}

#[test]
fn service_tag_inside_a_cycle_is_found() {
    let db = database(vec![
        class("A", Some("B")),
        class("B", Some("C")),
        service("C", Some("A")),
    ]);
    let resolver = ClassHierarchyResolver::new(&db);
    assert_eq!(resolver.class_is_a_service("A"), Some(true));
    assert_eq!(resolver.class_is_a_service("B"), Some(true));
    assert_eq!(resolver.class_is_a_service("C"), Some(true));
}

#[test]
fn chain_through_every_class_is_walked_to_its_top() {
    let mut top = service("Top", None);
    declare(&mut top, "OnTop", DataType::Enum("Height".into()));
    default(&mut top, "OnTop", Variant::Enum(Enum::from_u32(9)));
    let db = database(vec![
        class("One", Some("Two")),
        class("Two", Some("Three")),
        class("Three", Some("Four")),
        class("Four", Some("Top")),
        top,
    ]);
    let resolver = ClassHierarchyResolver::new(&db);
    assert_eq!(resolver.class_is_a("One", "Top"), Some(true));
    assert_eq!(resolver.class_is_a("One", "Four"), Some(true));
    assert_eq!(resolver.class_is_a("One", "Five"), Some(false));
    assert_eq!(resolver.class_is_a_service("One"), Some(true));
    let info = resolver.find_property_info("One", "OnTop").unwrap();
    assert_eq!(info.enum_name.as_deref(), Some("Height"));
    assert_eq!(info.enum_default, Some(9));
    assert!(resolver.find_property_info("One", "Beyond").is_none());
}

#[test]
fn single_class_schema() {
    let db = database(vec![class("Only", None)]);
    let resolver = ClassHierarchyResolver::new(&db);
    assert_eq!(resolver.class_is_a("Only", "Other"), Some(false));
    assert_eq!(resolver.class_is_a_service("Only"), Some(false));
    assert!(resolver.find_property_info("Only", "Name").is_none());
}

#[test]
fn empty_schema_knows_nothing() {
    let db = ReflectionDatabase::new();
    let resolver = ClassHierarchyResolver::new(&db);
    assert!(!resolver.class_exists("Part"));
    assert_eq!(resolver.class_is_a("Part", "BasePart"), None);
    assert_eq!(resolver.class_is_a("Part", "Part"), Some(true));
    assert_eq!(resolver.class_is_a_service("Part"), None);
    assert!(resolver.find_property_info("Part", "Name").is_none());
}

#[test]
fn property_declared_on_ancestor_is_read_from_the_ancestor() {
    let db = sample();
    let resolver = ClassHierarchyResolver::new(&db);
    // `Part` records `true` for `Anchored`, but `BasePart` declares it.
    let info = resolver.find_property_info("Part", "Anchored").unwrap();
    assert_eq!(info.enum_name, None);
    assert_eq!(info.enum_default, None);
    assert_eq!(info.value_type, Some(VariantType::Bool));
    assert_eq!(info.value_default, Some(&Variant::Bool(false)));
    let info = resolver.find_property_info("Workspace", "Archivable").unwrap();
    assert_eq!(info.value_type, Some(VariantType::Bool));
    assert!(info.value_default.is_none());
}

#[test]
fn nearest_declaration_wins() {
    let db = sample();
    let resolver = ClassHierarchyResolver::new(&db);
    let info = resolver.find_property_info("Part", "Shape").unwrap();
    assert_eq!(info.enum_name.as_deref(), Some("PartType"));
    assert_eq!(info.enum_default, Some(1));
    assert_eq!(info.value_type, None);
    assert!(info.value_default.is_none());
    let info = resolver.find_property_info("BasePart", "Shape").unwrap();
    assert_eq!(info.enum_name.as_deref(), Some("BaseShape"));
    assert_eq!(info.enum_default, Some(3));
    // `Part` declares `Name` again without a default: the default that
    // `Instance` records is not merged in.
    let info = resolver.find_property_info("Part", "Name").unwrap();
    assert_eq!(info.value_type, Some(VariantType::String));
    assert!(info.value_default.is_none());
    let info = resolver.find_property_info("BasePart", "Name").unwrap();
    assert_eq!(info.value_type, Some(VariantType::String));
    assert_eq!(info.value_default, Some(&Variant::String("Instance".to_owned())));
}

#[test]
fn value_default_is_borrowed_from_the_schema() {
    let db = sample();
    let resolver = ClassHierarchyResolver::new(&db);
    let info = resolver.find_property_info("Workspace", "Gravity").unwrap();
    let stored = db.classes.get("Workspace").unwrap().default_properties.get("Gravity").unwrap();
    assert!(std::ptr::eq(info.value_default.unwrap(), stored));
    assert_eq!(info.value_default, Some(&Variant::Float32(196.2)));
}

#[test]
fn enum_default_of_another_kind_is_no_default() {
    let db = sample();
    let resolver = ClassHierarchyResolver::new(&db);
    let info = resolver.find_property_info("BasePart", "Finish").unwrap();
    assert_eq!(info.enum_name.as_deref(), Some("Finish"));
    assert_eq!(info.enum_default, None);
    assert_eq!(info.value_type, None);
    assert!(info.value_default.is_none());
}

#[test]
fn enum_default_is_the_number_of_the_member() {
    let mut class = class("Lamp", None);
    declare(&mut class, "Zero", DataType::Enum("Level".into()));
    default(&mut class, "Zero", Variant::Enum(Enum::from_u32(0)));
    declare(&mut class, "Large", DataType::Enum("Level".into()));
    default(&mut class, "Large", Variant::Enum(Enum::from_u32(u32::MAX)));
    declare(&mut class, "AsInt", DataType::Enum("Level".into()));
    default(&mut class, "AsInt", Variant::Int32(2));
    let db = database(vec![class]);
    let resolver = ClassHierarchyResolver::new(&db);
    assert_eq!(resolver.find_property_info("Lamp", "Zero").unwrap().enum_default, Some(0));
    assert_eq!(resolver.find_property_info("Lamp", "Large").unwrap().enum_default, Some(u32::MAX));
    assert_eq!(resolver.find_property_info("Lamp", "AsInt").unwrap().enum_default, None);
}

#[test]
fn value_default_is_reported_whatever_its_kind() {
    let mut class = class("Lamp", None);
    declare(&mut class, "Level", DataType::Value(VariantType::Int32));
    default(&mut class, "Level", Variant::Enum(Enum::from_u32(4)));
    let db = database(vec![class]);
    let resolver = ClassHierarchyResolver::new(&db);
    let info = resolver.find_property_info("Lamp", "Level").unwrap();
    assert_eq!(info.enum_name, None);
    assert_eq!(info.enum_default, None);
    assert_eq!(info.value_type, Some(VariantType::Int32));
    assert_eq!(info.value_default, Some(&Variant::Enum(Enum::from_u32(4))));
}

#[test]
fn default_without_declaration_is_no_property() {
    let mut class = class("Lamp", None);
    default(&mut class, "Stray", Variant::Bool(true));
    let db = database(vec![class]);
    assert!(ClassHierarchyResolver::new(&db).find_property_info("Lamp", "Stray").is_none());
}

#[test]
fn missing_property_or_class_is_none() {
    let db = sample();
    let resolver = ClassHierarchyResolver::new(&db);
    assert!(resolver.find_property_info("Part", "NoSuchProperty").is_none());
    assert!(resolver.find_property_info("Part", "material").is_none());
    assert!(resolver.find_property_info("Part", "Gravity").is_none());
    assert!(resolver.find_property_info("Instance", "Material").is_none());
    assert!(resolver.find_property_info("No Such Class", "Name").is_none());
    assert!(resolver.find_property_info("", "").is_none());
}

#[test]
fn descriptions_name_an_enum_or_a_value_kind_never_both() {
    let db = sample();
    let resolver = ClassHierarchyResolver::new(&db);
    for class in ["Part", "BasePart", "Instance", "Workspace"] {
        for property in ["Name", "Material", "Anchored", "Shape", "Finish", "Gravity", "Nothing"] {
            if let Some(info) = resolver.find_property_info(class, property) {
                assert!(info.enum_name.is_some() != info.value_type.is_some());
                assert!(info.enum_default.is_none() || info.enum_name.is_some());
                assert!(info.value_default.is_none() || info.value_type.is_some());
            }
        }
    }
}
