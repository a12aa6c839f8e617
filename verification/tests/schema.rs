use arrow::datatypes::DataType;
use eat_the_rich_core::models::sentiment_schema;

#[test]
fn sentiment_schema_has_the_tick_columns_in_order() {
    let schema = sentiment_schema();
    let fields = schema.fields();
    assert_eq!(fields.len(), 5);
    let expected = [
        ("ticker", DataType::Utf8),
        ("timestamp", DataType::Int64),
        ("polarity", DataType::Float64),
        ("topic", DataType::Utf8),
        ("velocity", DataType::Float64),
    ];
    for (field, (name, data_type)) in fields.iter().zip(expected.iter()) {
        assert_eq!(field.name(), name);
        assert_eq!(field.data_type(), data_type);
        assert!(!field.is_nullable());
    }
    assert!(schema.metadata().is_empty());
}
